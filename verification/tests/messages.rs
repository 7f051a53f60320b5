use cc_check::{check_message, report, CheckOptions, OutputFormat, Report, ValidationError};

/// What a run on `message` under `options` gives: the verdict and the report.
fn run(message: &str, options: &CheckOptions) -> (Result<(), ValidationError>, Report) {
    let verdict = check_message(message, &options.policy());
    let rep = report(options.format, &verdict).expect("a report");
    (verdict, rep)
}

fn defaults() -> CheckOptions {
    CheckOptions::default_with_file(None)
}

fn with_extra_types(extra: &str) -> CheckOptions {
    let mut options = defaults();
    options.extra_types = Some(extra.to_string());
    options
}

fn with_max_subject(max_subject: usize) -> CheckOptions {
    let mut options = defaults();
    options.max_subject = max_subject;
    options
}

fn as_json() -> CheckOptions {
    let mut options = defaults();
    options.format = OutputFormat::Json;
    options
}

fn assert_accepted(message: &str, options: &CheckOptions) {
    let (verdict, rep) = run(message, options);
    assert_eq!(verdict, Ok(()), "{:?}", message);
    assert_eq!(rep.exit_code, 0, "{:?}", message);
    assert_eq!(rep.stderr, None, "{:?}", message);
}

fn assert_rejected(message: &str, options: &CheckOptions, error: ValidationError) {
    let (verdict, rep) = run(message, options);
    assert_eq!(verdict, Err(error.clone()), "{:?}", message);
    assert_eq!(rep.exit_code, 1, "{:?}", message);
    assert_eq!(
        rep.stderr,
        Some(format!("Conventional commit check failed: {}", error.message())),
        "{:?}",
        message
    );
    assert_eq!(rep.stdout, None, "{:?}", message);
}

#[test]
fn each_standard_type_is_accepted() {
    for message in [
        "feat: add new feature",
        "fix: correct bug",
        "chore: update dependencies",
        "docs: update README",
        "style: format code",
        "refactor: restructure code",
        "perf: improve performance",
        "test: add unit tests",
        "build: update build config",
        "ci: update workflow",
        "revert: revert previous change",
    ] {
        assert_accepted(message, &defaults());
    }
    for commit_type in [
        "feat", "fix", "chore", "docs", "style", "refactor", "perf", "test", "build", "ci",
        "revert",
    ] {
        assert_accepted(&format!("{}: test message", commit_type), &defaults());
    }
}

#[test]
fn scopes_and_breaking_markers_are_accepted() {
    for message in [
        "feat(api): add endpoint",
        "feat!: breaking change",
        "feat(api)!: breaking api change",
        "fix(api/v2): handle edge case",
        "feat(api-client): add retry logic",
        "fix(api_client): correct bug",
        "feat(api2): add feature",
        "feat(api#v2): add endpoint",
    ] {
        assert_accepted(message, &defaults());
    }
}

#[test]
fn header_is_found_among_blank_lines_comments_and_body() {
    let long_body = "This is a very long body line. ".repeat(100);
    for message in [
        "feat: add thing\n\nbody".to_string(),
        "# comment\n\nfeat: actual commit".to_string(),
        "# comment line\nfeat: add feature".to_string(),
        "# comment 1\n# comment 2\n# comment 3\nfeat: add feature".to_string(),
        "  # comment with spaces\nfeat: add feature".to_string(),
        "\n\n# comment\n\nfeat: add feature".to_string(),
        "feat: add feature\n\n# This is a comment in the body\nMore body text".to_string(),
        "# Fixes issue #123\n# See also PR #456\n\nfeat: add feature".to_string(),
        "\n\n\nfeat: add feature\n\n\n".to_string(),
        "  feat: add feature".to_string(),
        "feat: add feature  ".to_string(),
        "feat: add feature\n\nLine 1\nLine 2\nLine 3".to_string(),
        format!("feat: add feature\n\n{}", long_body),
        "feat: add feature\r\n\r\nbody\r\n".to_string(),
    ] {
        assert_accepted(&message, &defaults());
    }
}

#[test]
fn subjects_may_hold_any_characters() {
    for message in [
        "feat: add 日本語 support",
        "feat: add 🎉 emoji support",
        "feat: add support for @mentions and #hashtags",
        "feat: add #hashtag support",
        "fix: a (b) [c] {d} <e> \"f\" 'g' \\h",
    ] {
        assert_accepted(message, &defaults());
    }
}

#[test]
fn merge_and_revert_headers_are_accepted_by_default() {
    for message in [
        "Merge branch 'feature/x'",
        "Revert \"feat: add feature\"",
        "Merge branch 'feature/new-feature'",
        "Merge pull request #123 from user/feature",
    ] {
        assert_accepted(message, &defaults());
        let mut strict = defaults();
        strict.allow_merge_commits = false;
        assert_rejected(message, &strict, ValidationError::BadHeader);
    }
}

#[test]
fn lines_outside_the_grammar_are_bad_headers() {
    for message in [
        "invalid commit message",
        "not a valid commit",
        "feat add feature",
        ": add feature",
        "feat api: add endpoint",
        "feat(api: add endpoint",
        "feat(): add feature",
        "FEAT: add feature",
        "feat2: add feature",
        "feat-api: add feature",
        "feat: ",
        "feat:",
    ] {
        assert_rejected(message, &defaults(), ValidationError::BadHeader);
    }
}

#[test]
fn unknown_types_are_rejected_by_name() {
    for (message, commit_type) in [
        ("update: stuff", "update"),
        ("wip: tmp", "wip"),
        ("invalid: commit message", "invalid"),
        ("invalid: commit", "invalid"),
        ("release: v1.0.0", "release"),
    ] {
        assert_rejected(
            message,
            &defaults(),
            ValidationError::DisallowedType(commit_type.to_string()),
        );
    }
}

#[test]
fn messages_without_a_header_are_empty() {
    for message in ["", "# comment 1\n# comment 2\n", "# comment 1\n# comment 2\n\n", "\n \n"] {
        assert_rejected(message, &defaults(), ValidationError::Empty);
    }
}

#[test]
fn trailing_period_is_rejected_by_default() {
    assert_rejected("feat: add x.", &defaults(), ValidationError::TrailingPeriod);
    assert_rejected("feat: add feature.", &defaults(), ValidationError::TrailingPeriod);
    let mut lenient = defaults();
    lenient.no_trailing_period = false;
    assert_accepted("feat: add feature.", &lenient);
}

#[test]
fn comments_are_content_when_not_ignored() {
    let mut options = defaults();
    options.ignore_comments = false;
    assert_rejected(
        "# This is treated as content\nfeat: add feature",
        &options,
        ValidationError::BadHeader,
    );
    assert_accepted("# This is a comment\nfeat: add feature", &defaults());
}

#[test]
fn extra_types_are_allowed_besides_the_defaults() {
    assert_accepted("wip: work in progress", &with_extra_types("wip"));
    assert_accepted("release: v1.0.0", &with_extra_types("wip,release"));
    assert_accepted("wip: work in progress", &with_extra_types(" wip , release "));
    assert_accepted("feat: add feature", &with_extra_types(""));
    assert_accepted("feat: add feature", &with_extra_types("wip"));
    assert_rejected(
        "draft: x",
        &with_extra_types("wip,release"),
        ValidationError::DisallowedType("draft".to_string()),
    );
    let mut options = with_extra_types("custom");
    options.max_subject = 100;
    options.format = OutputFormat::Json;
    let (verdict, rep) = run("custom: commit with custom type", &options);
    assert_eq!(verdict, Ok(()));
    assert_eq!(rep.stdout, Some("{\"ok\":true}".to_string()));
}

#[test]
fn subject_limit_is_inclusive() {
    assert_accepted(&format!("feat: {}", "a".repeat(72)), &with_max_subject(72));
    assert_rejected(
        &format!("feat: {}", "a".repeat(73)),
        &with_max_subject(72),
        ValidationError::SubjectTooLong(72, 73),
    );
    assert_accepted(&format!("feat: {}", "🎉".repeat(36)), &with_max_subject(72));
    assert_rejected(
        &format!("feat: {}", "a".repeat(50)),
        &with_max_subject(40),
        ValidationError::SubjectTooLong(40, 50),
    );
    assert_rejected(
        &format!("feat: {}", "a".repeat(60)),
        &with_max_subject(50),
        ValidationError::SubjectTooLong(50, 60),
    );
    assert_accepted(&format!("feat: {}", "a".repeat(100)), &with_max_subject(0));
    assert_accepted(&format!("feat: {}", "a".repeat(200)), &with_max_subject(0));
}

#[test]
fn json_report_of_an_accepted_message() {
    for message in ["fix: correct bug", "feat: add feature"] {
        let (verdict, rep) = run(message, &as_json());
        assert_eq!(verdict, Ok(()));
        let stdout = rep.stdout.unwrap();
        assert_eq!(stdout, "{\"ok\":true}");
        assert!(stdout.contains("\"ok\":true"));
        assert!(!stdout.contains("\"error\""));
        assert_eq!(rep.stderr, None);
        assert_eq!(rep.exit_code, 0);
    }
}

#[test]
fn json_report_of_a_rejected_message() {
    for (message, commit_type) in [("wip: tmp", "wip"), ("invalid: commit", "invalid")] {
        let (verdict, rep) = run(message, &as_json());
        assert_eq!(verdict, Err(ValidationError::DisallowedType(commit_type.to_string())));
        let stdout = rep.stdout.unwrap();
        assert_eq!(
            stdout,
            format!("{{\"ok\":false,\"error\":\"type '{}' is not allowed\"}}", commit_type)
        );
        assert!(stdout.contains("\"ok\":false"));
        assert!(stdout.contains("\"error\""));
        assert!(stdout.contains("not allowed"));
        assert_eq!(rep.stderr, None);
        assert_eq!(rep.exit_code, 1);
    }
}

#[test]
fn text_report_names_each_kind_of_error() {
    let (_, rep) = run("", &defaults());
    assert!(rep.stderr.unwrap().contains("empty commit message"));
    let (_, rep) = run("invalid: commit message", &defaults());
    assert!(rep.stderr.unwrap().contains("not allowed"));
    let (_, rep) = run("feat: add feature.", &defaults());
    assert!(rep.stderr.unwrap().contains("period"));
    let (_, rep) = run(&format!("feat: {}", "a".repeat(60)), &with_max_subject(50));
    assert!(rep.stderr.unwrap().contains("exceeds"));
    let (_, rep) = run("not a valid commit", &defaults());
    assert!(rep.stderr.unwrap().contains("Conventional commit check failed"));
}
