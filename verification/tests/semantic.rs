use nvda_rust_uia_standalone::semantic::{AccessibleNode, Role, State};

#[test]
fn role_names_are_platform_neutral() {
    assert_eq!(Role::Button.canonical_name(), "button");
    assert_eq!(Role::EditableText.canonical_name(), "editable_text");
    assert_eq!(Role::Terminal.canonical_name(), "terminal");
}

#[test]
fn role_speech_names_are_human_facing() {
    assert_eq!(Role::CheckBox.speech_name(), "check box");
    assert_eq!(Role::EditableText.speech_name(), "edit");
    assert_eq!(Role::TreeItem.speech_name(), "tree view item");
}

#[test]
fn value_reporting_is_role_specific() {
    assert!(Role::EditableText.reports_value_on_focus());
    assert!(Role::ComboBox.reports_value_on_focus());
    assert!(!Role::Button.reports_value_on_focus());
}

#[test]
fn name_has_priority_for_primary_text() {
    let node = AccessibleNode {
        name: "Save".into(),
        value: "ignored".into(),
        ..AccessibleNode::default()
    };
    assert_eq!(node.primary_text(), "Save");
}

#[test]
fn password_value_is_never_primary_or_safe_text() {
    let node = AccessibleNode {
        value: "secret".into(),
        states: vec![State::Password],
        ..AccessibleNode::default()
    };
    assert_eq!(node.primary_text(), "");
    assert_eq!(node.safe_value(), "");
}

#[test]
fn primary_text_falls_back_to_value_then_description() {
    let valued = AccessibleNode {
        value: "42".into(),
        description: "answer".into(),
        ..AccessibleNode::default()
    };
    assert_eq!(valued.primary_text(), "42");
    let described = AccessibleNode {
        value: "hidden".into(),
        description: "answer".into(),
        states: vec![State::Password],
        ..AccessibleNode::default()
    };
    assert_eq!(described.primary_text(), "answer");
    assert_eq!(AccessibleNode::default().primary_text(), "");
}

#[test]
fn safe_value_is_trimmed_with_unicode_white_space() {
    let node = AccessibleNode {
        value: "\u{a0}\t value \u{3000}\n".into(),
        ..AccessibleNode::default()
    };
    assert_eq!(node.safe_value(), "value");
    assert!(node.has_state(State::Password) == false);
    let blank = AccessibleNode {
        value: " \u{2028} ".into(),
        ..AccessibleNode::default()
    };
    assert_eq!(blank.safe_value(), "");
}

#[test]
fn default_node_is_empty_and_unknown() {
    let node = AccessibleNode::default();
    assert_eq!(node.role, Role::Unknown);
    assert_eq!(node.process_id, 0);
    assert!(node.states.is_empty());
    assert!(node.name.is_empty() && node.value.is_empty() && node.platform_id.is_empty());
}

#[test]
fn role_and_state_names() {
    assert_eq!(Role::Image.speech_name(), "graphic");
    assert_eq!(Role::TabPanel.speech_name(), "tab control");
    assert_eq!(Role::Unknown.speech_name(), "");
    assert_eq!(Role::Toolbar.to_string(), "toolbar");
    assert_eq!(State::ReadOnly.canonical_name(), "read_only");
    assert_eq!(State::Password.canonical_name(), "password");
    assert!(Role::Slider.reports_value_on_focus());
    assert!(Role::ProgressBar.reports_value_on_focus());
    assert!(!Role::Document.reports_value_on_focus());
}
