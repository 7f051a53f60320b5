//! How a verdict is reported: as a line for a person, or as a JSON record.

use crate::error::{message_text, verdict_view, ErrorKind, ValidationError};
use vstd::prelude::*;
use vstd::string::StringExecFns;

verus! {

/// The form in which a verdict is reported.
#[derive(Debug, Clone, Copy, PartialEq, Eq, Structural)]
pub enum OutputFormat {
    /// A line for a person, on the diagnostic stream, and only on failure.
    Text,
    /// A JSON record on the standard output, whatever the verdict.
    Json,
}

/// A line for the standard output, a line for the diagnostic stream, and an
/// exit code.
#[derive(Debug, Clone, PartialEq, Eq)]
pub struct Report {
    pub stdout: Option<String>,
    pub stderr: Option<String>,
    pub exit_code: i32,
}

/// A [`Report`] as mathematical values.
pub struct ReportView {
    pub stdout: Option<Seq<char>>,
    pub stderr: Option<Seq<char>>,
    pub exit_code: int,
}

impl View for Report {
    type V = ReportView;

    open spec fn view(&self) -> ReportView {
        ReportView {
            stdout: self.stdout.deep_view(),
            stderr: self.stderr.deep_view(),
            exit_code: self.exit_code as int,
        }
    }
}

/// The JSON encoder could not encode the error's message.
#[derive(Debug, Clone, Copy, PartialEq, Eq)]
pub struct EncodeError;

/// The error type of `serde_json`.
#[verifier::external_type_specification]
#[verifier::external_body]
pub struct ExJsonError(serde_json::Error);

/// The JSON string literal, quotes and escapes included, that `serde_json`
/// writes for the text `s`.
pub uninterp spec fn json_string(s: Seq<char>) -> Seq<char>;

/// The lower-case form that `str::to_lowercase` gives of `s`.
pub uninterp spec fn lowercase(s: Seq<char>) -> Seq<char>;

/// `serde_json::to_string` on a string slice: where it succeeds, what it
/// returns is the JSON string literal for `s`, which depends on `s` alone.
#[verifier::external_body]
fn json_encode(s: &str) -> (r: Result<String, serde_json::Error>)
    ensures
        r matches Ok(t) ==> t@ == json_string(s@),
{
    serde_json::to_string(s)
}

/// `str::to_lowercase` of the standard library: the lower-case form of `s`,
/// which depends on `s` alone.
#[verifier::external_body]
fn to_lowercase(s: &str) -> (r: String)
    ensures
        r@ == lowercase(s@),
{
    s.to_lowercase()
}

/// The format that a name in lower case stands for.
pub open spec fn format_named(lower: Seq<char>) -> Option<OutputFormat> {
    if lower == "text"@ {
        Some(OutputFormat::Text)
    } else if lower == "json"@ {
        Some(OutputFormat::Json)
    } else {
        None
    }
}

/// The report on an accepted message.
pub open spec fn success_report(format: OutputFormat) -> ReportView {
    match format {
        OutputFormat::Text => ReportView { stdout: None, stderr: None, exit_code: 0 },
        OutputFormat::Json => ReportView {
            stdout: Some("{\"ok\":true}"@),
            stderr: None,
            exit_code: 0,
        },
    }
}

/// The report, as text, on a message rejected for `e`.
pub open spec fn text_failure_report(e: ErrorKind) -> ReportView {
    ReportView {
        stdout: None,
        stderr: Some("Conventional commit check failed: "@ + message_text(e)),
        exit_code: 1,
    }
}

/// The report, as JSON, on a rejected message, where `encoded` is the JSON
/// string literal of the error's message.
pub open spec fn json_failure_report(encoded: Seq<char>) -> ReportView {
    ReportView {
        stdout: Some("{\"ok\":false,\"error\":"@ + encoded + "}"@),
        stderr: None,
        exit_code: 1,
    }
}

/// The report on `verdict` in the form `format`.
pub open spec fn report_of(format: OutputFormat, verdict: Result<(), ErrorKind>) -> ReportView {
    match verdict {
        Ok(_) => success_report(format),
        Err(e) => match format {
            OutputFormat::Text => text_failure_report(e),
            OutputFormat::Json => json_failure_report(json_string(message_text(e))),
        },
    }
}

impl OutputFormat {
    /// The format that `lower`, a name in lower case, stands for: `text` or
    /// `json`. Any other name is an error that lists the two.
    pub fn from_lowercase(lower: &str) -> (r: Result<OutputFormat, String>)
        ensures
            match r {
                Ok(format) => format_named(lower@) == Some(format),
                Err(why) => format_named(lower@) is None && why@
                    == "supported formats: text, json"@,
            },
    {
        let name = String::from_str(lower);
        if name == String::from_str("text") {
            Ok(OutputFormat::Text)
        } else if name == String::from_str("json") {
            Ok(OutputFormat::Json)
        } else {
            Err(String::from_str("supported formats: text, json"))
        }
    }

    /// The format that `name` stands for, whatever the case of its letters.
    pub fn parse(name: &str) -> (r: Result<OutputFormat, String>)
        ensures
            match r {
                Ok(format) => format_named(lowercase(name@)) == Some(format),
                Err(why) => format_named(lowercase(name@)) is None && why@
                    == "supported formats: text, json"@,
            },
    {
        let lower = to_lowercase(name);
        OutputFormat::from_lowercase(lower.as_str())
    }
}

impl std::str::FromStr for OutputFormat {
    type Err = String;

    /// The format that `s` stands for, whatever the case of its letters: what
    /// [`OutputFormat::parse`] gives.
    fn from_str(s: &str) -> (r: Result<OutputFormat, String>)
        ensures
            match r {
                Ok(format) => format_named(lowercase(s@)) == Some(format),
                Err(why) => format_named(lowercase(s@)) is None && why@
                    == "supported formats: text, json"@,
            },
    {
        OutputFormat::parse(s)
    }
}

/// The JSON record of a rejected message, given the JSON string literal of the
/// error's message.
pub fn json_failure(encoded: &str) -> (r: Report)
    ensures
        r@ == json_failure_report(encoded@),
{
    let mut record = String::from_str("{\"ok\":false,\"error\":");
    record.append(encoded);
    record.append("}");
    Report { stdout: Some(record), stderr: None, exit_code: 1 }
}

/// What to write and how to exit for `verdict`, in the form `format`. As text,
/// an accepted message is passed over in silence and a rejected one gives a
/// line on the diagnostic stream. As JSON, either gives a record on the
/// standard output. The exit code is 0 for an accepted message and 1 for a
/// rejected one. Fails only if the JSON encoder does.
pub fn report(format: OutputFormat, verdict: &Result<(), ValidationError>) -> (r: Result<
    Report,
    EncodeError,
>)
    ensures
        r matches Ok(rep) ==> rep@ == report_of(format, verdict_view(*verdict)),
        format is Text || *verdict is Ok ==> r is Ok,
{
    match verdict {
        Ok(_) => match format {
            OutputFormat::Text => Ok(Report { stdout: None, stderr: None, exit_code: 0 }),
            OutputFormat::Json => Ok(
                Report {
                    stdout: Some(String::from_str("{\"ok\":true}")),
                    stderr: None,
                    exit_code: 0,
                },
            ),
        },
        Err(e) => {
            let message = e.message();
            match format {
                OutputFormat::Text => {
                    let mut line = String::from_str("Conventional commit check failed: ");
                    line.append(message.as_str());
                    Ok(Report { stdout: None, stderr: Some(line), exit_code: 1 })
                },
                OutputFormat::Json => match json_encode(message.as_str()) {
                    Ok(encoded) => Ok(json_failure(encoded.as_str())),
                    Err(_) => Err(EncodeError),
                },
            }
        },
    }
}

} // verus!
