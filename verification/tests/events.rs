use nvda_rust_uia_standalone::{
    format_event_line, parse_monitor_seconds, parse_u64, AccessibilityEventKind, ElementSnapshot,
    DEFAULT_MONITOR_SECONDS,
};

#[test]
fn missing_value_uses_default() {
    assert_eq!(parse_monitor_seconds(None), DEFAULT_MONITOR_SECONDS);
}

#[test]
fn invalid_value_uses_default() {
    assert_eq!(
        parse_monitor_seconds(Some("invalid")),
        DEFAULT_MONITOR_SECONDS
    );
}

#[test]
fn valid_value_is_preserved() {
    assert_eq!(parse_monitor_seconds(Some("30")), 30);
}

#[test]
fn zero_is_allowed_for_noninteractive_smoke_runs() {
    assert_eq!(parse_monitor_seconds(Some("0")), 0);
}

#[test]
fn canonical_event_names_are_platform_neutral() {
    assert_eq!(AccessibilityEventKind::Focus.canonical_name(), "focus");
    assert_eq!(
        AccessibilityEventKind::TextChanged.canonical_name(),
        "text_changed"
    );
    assert_eq!(
        AccessibilityEventKind::TextSelectionChanged.canonical_name(),
        "text_selection_changed"
    );
}

#[test]
fn event_kind_keeps_windows_compatibility_label() {
    assert_eq!(AccessibilityEventKind::Focus.to_string(), "FOCUS");
    assert_eq!(
        AccessibilityEventKind::TextChanged.to_string(),
        "TEXT_CHANGED/UIA_20015"
    );
    assert_eq!(
        AccessibilityEventKind::TextSelectionChanged.to_string(),
        "TEXT_SELECTION_CHANGED/UIA_20014"
    );
}

#[test]
fn event_format_is_deterministic() {
    let snapshot = ElementSnapshot {
        process_id: 4242,
        framework: "XAML".into(),
        class_name: "TerminalControl".into(),
        role: "terminal".into(),
        name: "PowerShell".into(),
        automation_id: "Terminal".into(),
    };

    assert_eq!(
        format_event_line(AccessibilityEventKind::Focus, 7, &snapshot),
        "FOCUS #7 | PID=4242 | Framework=XAML | Class=TerminalControl | Role=terminal | Name=PowerShell | AutomationId=Terminal"
    );
}

#[test]
fn monitor_seconds_follow_u64_syntax() {
    assert_eq!(parse_monitor_seconds(Some("+42")), 42);
    assert_eq!(parse_monitor_seconds(Some("")), DEFAULT_MONITOR_SECONDS);
    assert_eq!(parse_monitor_seconds(Some("+")), DEFAULT_MONITOR_SECONDS);
    assert_eq!(parse_monitor_seconds(Some("-1")), DEFAULT_MONITOR_SECONDS);
    assert_eq!(parse_monitor_seconds(Some(" 5")), DEFAULT_MONITOR_SECONDS);
    assert_eq!(parse_monitor_seconds(Some("12a")), DEFAULT_MONITOR_SECONDS);
    assert_eq!(parse_monitor_seconds(Some("007")), 7);
}

#[test]
fn parse_u64_accepts_the_full_range_and_rejects_overflow() {
    assert_eq!(parse_u64("18446744073709551615"), Some(u64::MAX));
    assert_eq!(parse_u64("18446744073709551616"), None);
    assert_eq!(parse_u64("99999999999999999999999"), None);
    for text in ["0", "1", "65535", "4294967296", "+9"] {
        assert_eq!(parse_u64(text), text.parse::<u64>().ok());
    }
}

#[test]
fn event_line_renders_negative_and_large_numbers() {
    let snapshot = ElementSnapshot {
        process_id: -12,
        framework: "Win32".into(),
        class_name: "Edit".into(),
        role: "edit".into(),
        name: "".into(),
        automation_id: "15".into(),
    };
    assert_eq!(
        format_event_line(AccessibilityEventKind::TextSelectionChanged, u64::MAX, &snapshot),
        "TEXT_SELECTION_CHANGED/UIA_20014 #18446744073709551615 | PID=-12 | Framework=Win32 | Class=Edit | Role=edit | Name= | AutomationId=15"
    );
    let min = ElementSnapshot { process_id: i32::MIN, ..snapshot };
    assert!(format_event_line(AccessibilityEventKind::TextChanged, 0, &min)
        .starts_with("TEXT_CHANGED/UIA_20015 #0 | PID=-2147483648 |"));
}
