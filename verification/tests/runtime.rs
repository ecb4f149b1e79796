use nvda_rust_uia_standalone::semantic::{Role, State};
use nvda_rust_uia_standalone::windows_runtime::{
    diagnostic_snapshot, focus_identity, focus_phrase, focus_speech, format_focus_line,
    format_property_line, property_label, reads_value, samples_value, semantic_node, toggle_phrase,
    toggle_state_code, value_phrase, ControlStateTracker, FocusTracker, Observation,
    MAX_TRACKED_CONTROL_STATES, TOGGLE_TOGGLE_STATE_PROPERTY_ID, VALUE_VALUE_PROPERTY_ID,
};
use nvda_rust_uia_standalone::ElementSnapshot;

fn snapshot(name: &str, role: &str, class_name: &str) -> ElementSnapshot {
    ElementSnapshot {
        process_id: 77,
        framework: "WinForm".into(),
        class_name: class_name.into(),
        role: role.into(),
        name: name.into(),
        automation_id: "id1".into(),
    }
}

fn observation(name: &str, role: &str, control_type_id: i32, is_password: bool) -> Observation {
    Observation {
        snapshot: snapshot(name, role, "WindowsForms10.EDIT"),
        is_password,
        control_type_id,
    }
}

#[test]
fn focus_identity_joins_the_identifying_fields() {
    assert_eq!(
        focus_identity(&snapshot("Name", "edit", "Edit")),
        "77|WinForm|Edit|edit|Name|id1"
    );
}

#[test]
fn same_focus_is_announced_once() {
    let mut tracker = FocusTracker::new();
    assert!(tracker.focus_changed("a"));
    assert!(!tracker.focus_changed("a"));
    assert!(tracker.focus_changed("b"));
    assert!(tracker.focus_changed("a"));
}

#[test]
fn first_sample_reports_nothing_and_changes_are_reported_once() {
    let mut tracker = ControlStateTracker::new();
    let first = tracker.sample("combo", Some("Low".to_string()), Some(0));
    assert_eq!(first.value, None);
    assert_eq!(first.toggle, None);
    assert_eq!(tracker.len(), 1);

    let changed = tracker.sample("combo", Some("High".to_string()), Some(1));
    assert_eq!(changed.value, Some("High".to_string()));
    assert_eq!(changed.toggle, Some(1));

    let again = tracker.sample("combo", Some("High".to_string()), Some(1));
    assert_eq!(again.value, None);
    assert_eq!(again.toggle, None);
    assert_eq!(tracker.len(), 1);
}

#[test]
fn unknown_previous_or_new_value_is_not_a_change() {
    let mut tracker = ControlStateTracker::new();
    tracker.sample("edit", None, None);
    let c = tracker.sample("edit", Some("text".to_string()), Some(1));
    assert_eq!(c.value, None);
    assert_eq!(c.toggle, None);
    let c = tracker.sample("edit", None, None);
    assert_eq!(c.value, None);
    assert_eq!(c.toggle, None);
}

#[test]
fn tracker_is_bounded_and_evicts_oldest() {
    let mut tracker = ControlStateTracker::new();
    for i in 0..(MAX_TRACKED_CONTROL_STATES + 10) {
        tracker.sample(&format!("control-{i}"), Some("v".to_string()), None);
    }
    assert_eq!(tracker.len(), MAX_TRACKED_CONTROL_STATES);
    // The oldest entry was dropped: sampling it again counts as a first sample.
    let c = tracker.sample("control-0", Some("other".to_string()), None);
    assert_eq!(c.value, None);
    // A recent entry is still known.
    let c = tracker.sample(
        &format!("control-{}", MAX_TRACKED_CONTROL_STATES + 9),
        Some("other".to_string()),
        None,
    );
    assert_eq!(c.value, Some("other".to_string()));
    assert_eq!(tracker.len(), MAX_TRACKED_CONTROL_STATES);
}

#[test]
fn toggle_phrases_and_codes() {
    assert_eq!(toggle_phrase(1), "checked");
    assert_eq!(toggle_phrase(0), "not checked");
    assert_eq!(toggle_phrase(2), "partially checked");
    assert_eq!(toggle_phrase(7), "state changed");
    assert_eq!(toggle_state_code(1), 1);
    assert_eq!(toggle_state_code(2), 2);
    assert_eq!(toggle_state_code(0), 0);
    assert_eq!(toggle_state_code(-3), 0);
}

#[test]
fn property_labels() {
    assert_eq!(property_label(VALUE_VALUE_PROPERTY_ID), "ValueValue");
    assert_eq!(property_label(30079), "SelectionItemIsSelected");
    assert_eq!(property_label(TOGGLE_TOGGLE_STATE_PROPERTY_ID), "ToggleToggleState");
    assert_eq!(property_label(30005), "Unknown");
}

#[test]
fn direct_focus_phrase() {
    assert_eq!(focus_phrase(&observation(" Save ", "button", 50000, false)), "Save, button");
    assert_eq!(focus_phrase(&observation("Save", "<unavailable>", 50000, false)), "Save");
    assert_eq!(focus_phrase(&observation("<unavailable>", "edit", 50004, false)), "edit");
    assert_eq!(focus_phrase(&observation("", " ", 50004, false)), "");
    assert_eq!(focus_phrase(&observation("Secret", "edit", 50004, true)), "password field");
}

#[test]
fn combo_value_phrase_is_trimmed() {
    assert_eq!(value_phrase("  Medium "), Some("Medium".to_string()));
    assert_eq!(value_phrase("   "), None);
}

#[test]
fn diagnostic_snapshot_redacts_name_and_automation_id() {
    let s = snapshot("Alice", "edit", "Edit");
    let redacted = diagnostic_snapshot(&s, false);
    assert_eq!(redacted.name, "<redacted chars=5>");
    assert_eq!(redacted.automation_id, "<redacted chars=3>");
    assert_eq!(redacted.role, "edit");
    assert_eq!(redacted.process_id, 77);
    let shown = diagnostic_snapshot(&snapshot("a|b", "edit", "Edit"), true);
    assert_eq!(shown.name, "a\\|b");
}

#[test]
fn semantic_node_reads_values_only_when_allowed() {
    let edit = observation("Search", "edit", 50004, false);
    assert!(reads_value(&edit));
    let node = semantic_node(&edit, "rust", None, true, true, true, false);
    assert_eq!(node.role, Role::EditableText);
    assert_eq!(node.value, "rust");
    assert_eq!(node.platform_id, focus_identity(&edit.snapshot));
    assert_eq!(focus_speech(&node), Some("Search, edit, rust".to_string()));

    let password = observation("PIN", "edit", 50004, true);
    assert!(!reads_value(&password));
    let node = semantic_node(&password, "1234", None, true, true, true, false);
    assert_eq!(node.value, "");
    assert!(node.has_state(State::Password));
    assert_eq!(focus_speech(&node), Some("PIN, edit, protected".to_string()));

    let button = observation("OK", "button", 50000, false);
    assert!(!reads_value(&button));
    let node = semantic_node(&button, "ignored", Some(1), false, true, false, false);
    assert_eq!(node.value, "");
    assert_eq!(node.states, vec![State::Focusable, State::Disabled, State::Checked]);
}

#[test]
fn terminal_overlay() {
    let mut term = observation("PowerShell", "document", 50030, false);
    term.snapshot.class_name = "TermControl".into();
    let node = semantic_node(&term, "", None, true, true, true, false);
    assert_eq!(node.role, Role::Terminal);
}

#[test]
fn evidence_lines() {
    let s = snapshot("N", "r", "C");
    assert_eq!(
        format_focus_line(3, "poll", &s),
        "FOCUS #3 | Source=poll | PID=77 | Framework=WinForm | Class=C | Role=r | Name=N | AutomationId=id1"
    );
    assert_eq!(
        format_property_line(9, 30086, "event", &s),
        "PROPERTY_CHANGED/UIA_30086[ToggleToggleState] #9 | Source=event | PID=77 | Framework=WinForm | Class=C | Role=r | Name=N | AutomationId=id1"
    );
}

#[test]
fn password_values_are_never_sampled() {
    assert!(!samples_value(&observation("PIN", "edit", 50004, true)));
    assert!(samples_value(&observation("Volume", "slider", 50015, false)));
}
