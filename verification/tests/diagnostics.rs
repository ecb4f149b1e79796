use nvda_rust_uia_standalone::windows_diagnostics::{
    one_line, optional_text, parse_opt_in, policy_marker_lines, text,
};

#[test]
fn diagnostic_text_requires_explicit_opt_in() {
    assert!(!parse_opt_in(None));
    assert!(!parse_opt_in(Some("0".to_string())));
    assert!(!parse_opt_in(Some("false".to_string())));
    assert!(parse_opt_in(Some("1".to_string())));
    assert!(parse_opt_in(Some("TRUE".to_string())));
}

#[test]
fn opt_in_ignores_white_space_and_case_only() {
    assert!(parse_opt_in(Some("  Yes\n".to_string())));
    assert!(parse_opt_in(Some("tRuE".to_string())));
    assert!(!parse_opt_in(Some("y".to_string())));
    assert!(!parse_opt_in(Some("1 1".to_string())));
    assert!(!parse_opt_in(Some(String::new())));
}

#[test]
fn one_line_escapes_separators_and_breaks() {
    assert_eq!(one_line("a|b\\c\r\nd"), "a\\|b\\\\c\\r\\nd");
    assert_eq!(one_line("plain"), "plain");
    assert!(!one_line("x\ny\rz").contains('\n'));
}

#[test]
fn text_is_redacted_unless_opted_in() {
    assert_eq!(text("secret value", false), "<redacted chars=12>");
    assert_eq!(text("é|", false), "<redacted chars=2>");
    assert_eq!(text("é|", true), "é\\|");
    assert_eq!(text("", false), "<redacted chars=0>");
    assert_eq!(optional_text("", false), "<none>");
    assert_eq!(optional_text("", true), "<none>");
    assert_eq!(optional_text("abc", false), "<redacted chars=3>");
    assert_eq!(optional_text("a\nb", true), "a\\nb");
}

#[test]
fn policy_markers_name_the_text_policy() {
    assert_eq!(
        policy_marker_lines(false),
        vec![
            "DIAGNOSTIC_TEXT_POLICY = REDACTED_DEFAULT".to_string(),
            "PASSWORD_TEXT_POLICY = ALWAYS_REDACTED".to_string(),
        ]
    );
    assert_eq!(
        policy_marker_lines(true),
        vec![
            "DIAGNOSTIC_TEXT_POLICY = TEST_EVIDENCE_OPT_IN".to_string(),
            "PASSWORD_TEXT_POLICY = ALWAYS_REDACTED".to_string(),
        ]
    );
}
