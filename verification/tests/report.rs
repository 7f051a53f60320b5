use cc_check::report::{json_failure, EncodeError};
use cc_check::{report, OutputFormat, Report, ValidationError};
use std::str::FromStr;

#[test]
fn each_error_has_its_message() {
    assert_eq!(ValidationError::Empty.message(), "empty commit message");
    assert_eq!(ValidationError::MissingHeader.message(), "first line (header) missing");
    assert_eq!(
        ValidationError::BadHeader.message(),
        "header must match <type>(<scope>)?: <subject>"
    );
    assert_eq!(
        ValidationError::DisallowedType("update".to_string()).message(),
        "type 'update' is not allowed"
    );
    assert_eq!(ValidationError::EmptySubject.message(), "subject must be non-empty");
    assert_eq!(
        ValidationError::SubjectTooLong(72, 80).message(),
        "subject exceeds 72 characters (80)"
    );
    assert_eq!(
        ValidationError::TrailingPeriod.message(),
        "subject must not end with a period"
    );
}

#[test]
fn numbers_are_written_in_decimal() {
    for n in [0usize, 1, 9, 10, 11, 99, 100, 101, 1234567890, 9007199254740993, usize::MAX] {
        for m in [0usize, 7, 10, 1000, usize::MAX - 1] {
            assert_eq!(
                ValidationError::SubjectTooLong(n, m).message(),
                format!("subject exceeds {} characters ({})", n, m)
            );
        }
    }
}

#[test]
fn text_report_is_silent_on_success() {
    assert_eq!(
        report(OutputFormat::Text, &Ok(())),
        Ok(Report { stdout: None, stderr: None, exit_code: 0 })
    );
}

#[test]
fn text_report_names_the_error() {
    assert_eq!(
        report(OutputFormat::Text, &Err(ValidationError::DisallowedType("update".to_string()))),
        Ok(Report {
            stdout: None,
            stderr: Some(
                "Conventional commit check failed: type 'update' is not allowed".to_string()
            ),
            exit_code: 1,
        })
    );
    assert_eq!(
        report(OutputFormat::Text, &Err(ValidationError::Empty)),
        Ok(Report {
            stdout: None,
            stderr: Some("Conventional commit check failed: empty commit message".to_string()),
            exit_code: 1,
        })
    );
}

#[test]
fn json_report_of_success_has_no_error_field() {
    assert_eq!(
        report(OutputFormat::Json, &Ok(())),
        Ok(Report { stdout: Some("{\"ok\":true}".to_string()), stderr: None, exit_code: 0 })
    );
}

#[test]
fn json_report_of_failure_holds_the_message() {
    assert_eq!(
        report(OutputFormat::Json, &Err(ValidationError::SubjectTooLong(72, 80))),
        Ok(Report {
            stdout: Some(
                "{\"ok\":false,\"error\":\"subject exceeds 72 characters (80)\"}".to_string()
            ),
            stderr: None,
            exit_code: 1,
        })
    );
    assert_eq!(
        report(OutputFormat::Json, &Err(ValidationError::BadHeader)),
        Ok(Report {
            stdout: Some(
                "{\"ok\":false,\"error\":\"header must match <type>(<scope>)?: <subject>\"}"
                    .to_string()
            ),
            stderr: None,
            exit_code: 1,
        })
    );
}

#[test]
fn json_report_escapes_the_message() {
    let verdict = Err(ValidationError::DisallowedType("a\"b\\c\nd\u{1}é".to_string()));
    let rep = report(OutputFormat::Json, &verdict).unwrap();
    assert_eq!(
        rep.stdout,
        Some(
            "{\"ok\":false,\"error\":\"type 'a\\\"b\\\\c\\nd\\u0001é' is not allowed\"}"
                .to_string()
        )
    );
    assert_eq!(rep.stderr, None);
    assert_eq!(rep.exit_code, 1);
    let value: serde_json::Value = serde_json::from_str(rep.stdout.as_ref().unwrap()).unwrap();
    assert_eq!(value["ok"], serde_json::Value::Bool(false));
    assert_eq!(
        value["error"],
        serde_json::Value::String("type 'a\"b\\c\nd\u{1}é' is not allowed".to_string())
    );
}

#[test]
fn json_failure_frames_the_encoded_message() {
    assert_eq!(
        json_failure("\"m\""),
        Report { stdout: Some("{\"ok\":false,\"error\":\"m\"}".to_string()), stderr: None, exit_code: 1 }
    );
    assert_eq!(
        json_failure(""),
        Report { stdout: Some("{\"ok\":false,\"error\":}".to_string()), stderr: None, exit_code: 1 }
    );
}

#[test]
fn report_does_not_fail_on_any_error() {
    let errors = [
        ValidationError::Empty,
        ValidationError::MissingHeader,
        ValidationError::BadHeader,
        ValidationError::DisallowedType(String::new()),
        ValidationError::EmptySubject,
        ValidationError::SubjectTooLong(0, 0),
        ValidationError::TrailingPeriod,
    ];
    for e in errors {
        for format in [OutputFormat::Text, OutputFormat::Json] {
            let rep = report(format, &Err(e.clone()));
            assert_ne!(rep, Err(EncodeError));
            assert_eq!(rep.unwrap().exit_code, 1);
        }
    }
}

#[test]
fn format_names_are_read_in_any_case() {
    assert_eq!(OutputFormat::from_str("text"), Ok(OutputFormat::Text));
    assert_eq!(OutputFormat::from_str("json"), Ok(OutputFormat::Json));
    assert_eq!(OutputFormat::from_str("JSON"), Ok(OutputFormat::Json));
    assert_eq!(OutputFormat::from_str("Text"), Ok(OutputFormat::Text));
    assert_eq!(OutputFormat::parse("tExT"), Ok(OutputFormat::Text));
    assert_eq!("Json".parse::<OutputFormat>(), Ok(OutputFormat::Json));
}

#[test]
fn other_format_names_are_refused() {
    for name in ["", "xml", "text ", " json", "jsonl", "te xt", "yaml"] {
        assert_eq!(
            OutputFormat::from_str(name),
            Err("supported formats: text, json".to_string()),
            "{:?}",
            name
        );
    }
}

#[test]
fn lower_case_names_are_read_exactly() {
    assert_eq!(OutputFormat::from_lowercase("text"), Ok(OutputFormat::Text));
    assert_eq!(OutputFormat::from_lowercase("json"), Ok(OutputFormat::Json));
    assert_eq!(
        OutputFormat::from_lowercase("JSON"),
        Err("supported formats: text, json".to_string())
    );
}
