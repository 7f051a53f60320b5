use cc_check::{check_message, validate_header, ValidationError, ValidationPolicy};

fn allowed() -> Vec<String> {
    vec![
        "feat", "fix", "chore", "docs", "style", "refactor", "perf", "test", "build", "ci",
        "revert",
    ]
    .into_iter()
    .map(String::from)
    .collect()
}

fn policy(max: usize, forbid_trailing_period: bool, allow_merge_like: bool) -> ValidationPolicy {
    ValidationPolicy {
        allowed_types: allowed(),
        max_subject_length: max,
        forbid_trailing_period,
        ignore_comment_lines: true,
        allow_merge_like,
    }
}

#[test]
fn minimal_header_is_accepted() {
    assert_eq!(check_message("feat: add x", &ValidationPolicy::default()), Ok(()));
    assert_eq!(validate_header("feat: add x", &allowed(), 72, true), Ok(()));
}

#[test]
fn unknown_type_is_named_in_the_error() {
    assert_eq!(
        check_message("update: stuff", &ValidationPolicy::default()),
        Err(ValidationError::DisallowedType("update".to_string()))
    );
    assert_eq!(
        validate_header("update: stuff", &allowed(), 72, true),
        Err(ValidationError::DisallowedType("update".to_string()))
    );
}

#[test]
fn trailing_period_is_rejected_only_where_forbidden() {
    assert_eq!(
        check_message("feat: x.", &policy(72, true, true)),
        Err(ValidationError::TrailingPeriod)
    );
    assert_eq!(check_message("feat: x.", &policy(72, false, true)), Ok(()));
    assert_eq!(validate_header("feat: x. ", &allowed(), 72, true), Err(ValidationError::TrailingPeriod));
    assert_eq!(validate_header("feat: x .", &allowed(), 72, true), Err(ValidationError::TrailingPeriod));
    assert_eq!(validate_header("feat: .x", &allowed(), 72, true), Ok(()));
}

#[test]
fn scope_and_breaking_marker_are_accepted() {
    assert_eq!(check_message("feat(api)!: breaking change", &ValidationPolicy::default()), Ok(()));
    assert_eq!(validate_header("fix(a b/c#1)!: x", &allowed(), 72, true), Ok(()));
}

#[test]
fn line_without_colon_is_a_bad_header() {
    assert_eq!(
        check_message("feat add x", &ValidationPolicy::default()),
        Err(ValidationError::BadHeader)
    );
    assert_eq!(validate_header("feat add x", &allowed(), 72, true), Err(ValidationError::BadHeader));
}

#[test]
fn message_without_meaningful_line_is_empty() {
    assert_eq!(check_message("", &ValidationPolicy::default()), Err(ValidationError::Empty));
    assert_eq!(check_message("\n  \n", &ValidationPolicy::default()), Err(ValidationError::Empty));
    assert_eq!(
        check_message("# only\n# comments", &ValidationPolicy::default()),
        Err(ValidationError::Empty)
    );
}

#[test]
fn subject_needs_a_character_after_the_separator() {
    assert_eq!(validate_header("feat: ", &allowed(), 72, true), Err(ValidationError::BadHeader));
    assert_eq!(validate_header("feat:", &allowed(), 72, true), Err(ValidationError::BadHeader));
    assert_eq!(
        check_message("feat: ", &ValidationPolicy::default()),
        Err(ValidationError::BadHeader)
    );
}

#[test]
fn subject_of_white_space_is_empty() {
    assert_eq!(validate_header("feat:  ", &allowed(), 72, true), Err(ValidationError::EmptySubject));
    assert_eq!(
        validate_header("feat: \t\u{a0} ", &allowed(), 72, true),
        Err(ValidationError::EmptySubject)
    );
    assert_eq!(
        validate_header("feat(x)!: \u{3000}", &allowed(), 0, false),
        Err(ValidationError::EmptySubject)
    );
}

#[test]
fn checks_come_in_a_fixed_order() {
    let long = "a".repeat(80);
    assert_eq!(
        validate_header("nope:  ", &allowed(), 72, true),
        Err(ValidationError::DisallowedType("nope".to_string()))
    );
    assert_eq!(
        validate_header(&format!("nope: {}.", long), &allowed(), 72, true),
        Err(ValidationError::DisallowedType("nope".to_string()))
    );
    assert_eq!(
        validate_header(&format!("feat: {}.", long), &allowed(), 72, true),
        Err(ValidationError::SubjectTooLong(72, 81))
    );
    assert_eq!(
        validate_header(&format!("feat: {}.", long), &allowed(), 0, true),
        Err(ValidationError::TrailingPeriod)
    );
    assert_eq!(validate_header("Nope:  ", &allowed(), 72, true), Err(ValidationError::BadHeader));
}

#[test]
fn empty_set_of_types_rejects_every_type() {
    let none: Vec<String> = Vec::new();
    assert_eq!(
        validate_header("feat: x", &none, 72, true),
        Err(ValidationError::DisallowedType("feat".to_string()))
    );
    assert_eq!(validate_header("feat x", &none, 72, true), Err(ValidationError::BadHeader));
}

#[test]
fn types_match_exactly() {
    let types = vec!["feat".to_string(), "Fix".to_string(), "fix ".to_string()];
    assert_eq!(validate_header("feat: x", &types, 72, true), Ok(()));
    assert_eq!(
        validate_header("fea: x", &types, 72, true),
        Err(ValidationError::DisallowedType("fea".to_string()))
    );
    assert_eq!(
        validate_header("feats: x", &types, 72, true),
        Err(ValidationError::DisallowedType("feats".to_string()))
    );
    assert_eq!(
        validate_header("fix: x", &types, 72, true),
        Err(ValidationError::DisallowedType("fix".to_string()))
    );
}

#[test]
fn subject_at_the_limit_passes_and_one_more_fails() {
    for limit in [1usize, 2, 10, 72, 100] {
        let at_limit = format!("feat: {}", "a".repeat(limit));
        let over = format!("feat: {}", "a".repeat(limit + 1));
        assert_eq!(validate_header(&at_limit, &allowed(), limit, true), Ok(()));
        assert_eq!(
            validate_header(&over, &allowed(), limit, true),
            Err(ValidationError::SubjectTooLong(limit, limit + 1))
        );
        assert_eq!(check_message(&at_limit, &policy(limit, true, true)), Ok(()));
        assert_eq!(
            check_message(&over, &policy(limit, true, true)),
            Err(ValidationError::SubjectTooLong(limit, limit + 1))
        );
    }
}

#[test]
fn limit_of_zero_is_no_limit() {
    let header = format!("feat: {}", "a".repeat(5000));
    assert_eq!(validate_header(&header, &allowed(), 0, true), Ok(()));
    assert_eq!(check_message(&header, &policy(0, true, true)), Ok(()));
}

#[test]
fn length_is_counted_after_trimming() {
    let header = format!("feat:   {}   ", "a".repeat(72));
    assert_eq!(validate_header(&header, &allowed(), 72, true), Ok(()));
    let header = format!("feat:   {} b  ", "a".repeat(71));
    assert_eq!(
        validate_header(&header, &allowed(), 72, true),
        Err(ValidationError::SubjectTooLong(72, 73))
    );
}

#[test]
fn length_is_counted_in_scalar_values() {
    let symbols = "\u{1F600}".repeat(36);
    assert_eq!(symbols.len(), 144);
    let header = format!("feat: {}", symbols);
    assert_eq!(validate_header(&header, &allowed(), 72, true), Ok(()));
    assert_eq!(validate_header(&header, &allowed(), 36, true), Ok(()));
    assert_eq!(
        validate_header(&header, &allowed(), 35, true),
        Err(ValidationError::SubjectTooLong(35, 36))
    );
    let header = format!("feat: {}", "\u{1F600}".repeat(73));
    assert_eq!(
        validate_header(&header, &allowed(), 72, true),
        Err(ValidationError::SubjectTooLong(72, 73))
    );
    let header = format!("feat: {}", "e\u{301}".repeat(36));
    assert_eq!(validate_header(&header, &allowed(), 72, true), Ok(()));
    assert_eq!(
        validate_header(&header, &allowed(), 71, true),
        Err(ValidationError::SubjectTooLong(71, 72))
    );
}

#[test]
fn merge_like_line_is_accepted_where_exempt() {
    for message in [
        "Merge branch 'x'",
        "Merge not even a header",
        "Revert \"feat: x\"",
        "\n# c\n  Merge pull request #1 from a/b.  \nbody",
        "  Merge \u{a0}x",
    ] {
        assert_eq!(check_message(message, &policy(72, true, true)), Ok(()), "{:?}", message);
    }
    assert_eq!(
        check_message("Merge branch 'x'", &policy(72, true, false)),
        Err(ValidationError::BadHeader)
    );
    assert_eq!(
        check_message("Revert y", &policy(72, true, false)),
        Err(ValidationError::BadHeader)
    );
}

#[test]
fn merge_like_needs_the_space_after_the_word() {
    assert_eq!(
        check_message("Merge: not even a header", &policy(72, true, true)),
        Err(ValidationError::BadHeader)
    );
    assert_eq!(
        check_message("Merger of two", &policy(72, true, true)),
        Err(ValidationError::BadHeader)
    );
    assert_eq!(
        check_message("Revert ", &policy(72, true, true)),
        Err(ValidationError::BadHeader)
    );
    assert_eq!(
        check_message("revert: undo it", &policy(72, true, true)),
        Ok(())
    );
}

#[test]
fn conforming_messages_are_accepted() {
    let p = ValidationPolicy::default();
    for message in [
        "feat: add x",
        "fix(parser): handle empty input",
        "chore!: drop old api",
        "docs(readme)!: rewrite",
        "  perf: trim me  \n\nbody text.",
        "# comment\n\nci(gh-actions): cache\n# another",
        "style: \u{1F600} emoji",
        "revert: feat: x",
        "build(deps): bump a from 1 to 2 (#12)",
        "test: a: b: c",
    ] {
        assert_eq!(check_message(message, &p), Ok(()), "{:?}", message);
    }
}

#[test]
fn same_message_and_policy_give_the_same_verdict() {
    let policies = [policy(72, true, true), policy(0, false, false), policy(3, true, false)];
    let messages = [
        "feat: add x", "update: stuff", "feat: x.", "", "Merge branch 'x'", "feat add x",
        "feat: abcd", "# c\n fix( a ): y \n", "feat:  ",
    ];
    for p in &policies {
        for message in messages {
            let first = check_message(message, p);
            let second = check_message(message, p);
            let third = check_message(message, p);
            assert_eq!(first, second);
            assert_eq!(second, third);
        }
    }
}

#[test]
fn comments_are_content_where_not_ignored() {
    let mut p = ValidationPolicy::default();
    assert_eq!(check_message("# c\nfeat: x", &p), Ok(()));
    p.ignore_comment_lines = false;
    assert_eq!(check_message("# c\nfeat: x", &p), Err(ValidationError::BadHeader));
}
