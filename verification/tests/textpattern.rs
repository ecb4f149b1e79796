use nvda_rust_uia_standalone::windows_textpattern2::{
    pass_line, protected_line, push_selection_part, selection_plan, selection_range_count,
    selection_ranges_to_read, selection_text, SelectionPlan,
};

#[test]
fn at_most_eight_ranges_are_read() {
    assert_eq!(selection_range_count(-4), 0);
    assert_eq!(selection_range_count(12), 12);
    assert_eq!(selection_ranges_to_read(0), 0);
    assert_eq!(selection_ranges_to_read(3), 3);
    assert_eq!(selection_ranges_to_read(8), 8);
    assert_eq!(selection_ranges_to_read(120), 8);
}

#[test]
fn password_fields_are_never_inspected() {
    assert_eq!(selection_plan(true), SelectionPlan::Protected);
    assert_eq!(selection_plan(false), SelectionPlan::Inspect);
}

#[test]
fn selection_parts_keep_nonempty_ranges() {
    let mut parts = Vec::new();
    push_selection_part(&mut parts, "first\nline");
    push_selection_part(&mut parts, "");
    push_selection_part(&mut parts, "a|b");
    assert_eq!(parts, vec!["first\nline".to_string(), "a|b".to_string()]);
}

#[test]
fn selection_text_with_opt_in_is_flattened_and_joined() {
    let parts = vec!["first\nline".to_string(), "a|b".to_string()];
    assert_eq!(selection_text(&parts, true), "first\\nline || a\\|b");
}

#[test]
fn selection_text_without_opt_in_is_redacted() {
    let parts = vec!["first\nline".to_string(), "a|b".to_string()];
    assert_eq!(selection_text(&parts, false), "<redacted chars=17>");
    let secret = vec!["secret".to_string()];
    assert_eq!(selection_text(&secret, false), "<redacted chars=6>");
}

#[test]
fn empty_selection_reads_none() {
    assert_eq!(selection_text(&Vec::new(), false), "<none>");
    assert_eq!(selection_text(&Vec::new(), true), "<none>");
}

#[test]
fn equal_length_selections_give_equal_redacted_summaries() {
    let a = vec!["hunter2".to_string()];
    let b = vec!["abc".to_string(), "".to_string()];
    assert_eq!(selection_text(&a, false), selection_text(&b, false));
}

#[test]
fn evidence_lines_for_selection() {
    assert_eq!(
        protected_line(4, 99),
        "TEXT_PATTERN2 #4 | PID=99 | protected=password | caret_active=<redacted> | selection_ranges=<redacted> | selection_text=<redacted>"
    );
    assert_eq!(
        pass_line(5, 99, true, -1, &Vec::new(), false),
        "TEXT_PATTERN2 #5 | PID=99 | status=pass | caret_active=true | selection_ranges=-1 | selection_text=<none>"
    );
    let secret = vec!["secret".to_string()];
    let line = pass_line(6, 7, false, 1, &secret, false);
    assert_eq!(
        line,
        "TEXT_PATTERN2 #6 | PID=7 | status=pass | caret_active=false | selection_ranges=1 | selection_text=<redacted chars=6>"
    );
    assert!(!line.contains("secret"));
    assert_eq!(
        pass_line(6, 7, false, 1, &secret, true),
        "TEXT_PATTERN2 #6 | PID=7 | status=pass | caret_active=false | selection_ranges=1 | selection_text=secret"
    );
}
