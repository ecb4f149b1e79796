use nvda_rust_uia_standalone::presentation::{focus_utterance, join_tokens, SpeechPriority};
use nvda_rust_uia_standalone::semantic::{AccessibleNode, Role, State};

#[test]
fn focus_presentation_combines_semantics() {
    let node = AccessibleNode {
        role: Role::CheckBox,
        name: "Remember me".into(),
        states: vec![State::Focusable, State::Checked],
        ..AccessibleNode::default()
    };

    let utterance = focus_utterance(&node).expect("utterance");
    assert_eq!(utterance.text, "Remember me, check box, checked");
    assert_eq!(utterance.priority, SpeechPriority::Focus);
    assert!(utterance.interrupt);
}

#[test]
fn edit_focus_reports_label_role_and_value() {
    let node = AccessibleNode {
        role: Role::EditableText,
        name: "Search".into(),
        value: "rust accessibility".into(),
        states: vec![State::Focusable, State::Editable],
        ..AccessibleNode::default()
    };

    let utterance = focus_utterance(&node).expect("utterance");
    assert_eq!(utterance.text, "Search, edit, rust accessibility");
}

#[test]
fn duplicate_value_is_not_repeated() {
    let node = AccessibleNode {
        role: Role::ComboBox,
        name: "Detailed".into(),
        value: "Detailed".into(),
        ..AccessibleNode::default()
    };

    let utterance = focus_utterance(&node).expect("utterance");
    assert_eq!(utterance.text, "Detailed, combo box");
}

#[test]
fn password_value_is_not_spoken() {
    let node = AccessibleNode {
        role: Role::EditableText,
        name: "Password".into(),
        value: "super-secret".into(),
        states: vec![State::Password],
        ..AccessibleNode::default()
    };

    let utterance = focus_utterance(&node).expect("role still produces speech");
    assert_eq!(utterance.text, "Password, edit, protected");
    assert!(!utterance.text.contains("super-secret"));
}

#[test]
fn unknown_empty_node_produces_no_speech() {
    assert_eq!(focus_utterance(&AccessibleNode::default()), None);
}

#[test]
fn state_words_follow_in_order() {
    let node = AccessibleNode {
        role: Role::TreeItem,
        name: "  Documents ".into(),
        states: vec![
            State::Disabled,
            State::Invalid,
            State::Required,
            State::Collapsed,
            State::Selected,
            State::Mixed,
        ],
        ..AccessibleNode::default()
    };
    let utterance = focus_utterance(&node).expect("utterance");
    assert_eq!(
        utterance.text,
        "Documents, tree view item, partially checked, selected, collapsed, required, invalid, disabled"
    );
}

#[test]
fn checked_wins_over_mixed_and_expanded_over_collapsed() {
    let node = AccessibleNode {
        role: Role::CheckBox,
        states: vec![State::Mixed, State::Checked, State::Collapsed, State::Expanded],
        ..AccessibleNode::default()
    };
    assert_eq!(
        focus_utterance(&node).unwrap().text,
        "check box, checked, expanded"
    );
}

#[test]
fn unknown_role_falls_back_to_native_role_and_description() {
    let native = AccessibleNode {
        native_role: "AXFutureRole".into(),
        name: "Widget".into(),
        ..AccessibleNode::default()
    };
    assert_eq!(focus_utterance(&native).unwrap().text, "Widget, AXFutureRole");

    let described = AccessibleNode {
        description: " only a hint ".into(),
        ..AccessibleNode::default()
    };
    assert_eq!(focus_utterance(&described).unwrap().text, "only a hint");

    let named = AccessibleNode {
        name: "Named".into(),
        description: "ignored when something else is said".into(),
        ..AccessibleNode::default()
    };
    assert_eq!(focus_utterance(&named).unwrap().text, "Named");
}

#[test]
fn values_are_only_reported_for_value_roles() {
    let button = AccessibleNode {
        role: Role::Button,
        name: "OK".into(),
        value: "pressed".into(),
        ..AccessibleNode::default()
    };
    assert_eq!(focus_utterance(&button).unwrap().text, "OK, button");

    let slider = AccessibleNode {
        role: Role::Slider,
        name: "Volume".into(),
        value: " 40 ".into(),
        ..AccessibleNode::default()
    };
    assert_eq!(focus_utterance(&slider).unwrap().text, "Volume, slider, 40");
}

#[test]
fn password_changes_nothing_but_the_protected_word() {
    let a = AccessibleNode {
        role: Role::EditableText,
        name: "PIN".into(),
        value: "1234".into(),
        states: vec![State::Password, State::Required],
        ..AccessibleNode::default()
    };
    let b = AccessibleNode {
        value: "completely different".into(),
        ..a.clone()
    };
    assert_eq!(focus_utterance(&a), focus_utterance(&b));
    assert_eq!(focus_utterance(&a).unwrap().text, "PIN, edit, protected, required");
}

#[test]
fn tokens_are_joined_with_separator() {
    let tokens = vec!["a".to_string(), "b c".to_string(), "d".to_string()];
    assert_eq!(join_tokens(&tokens, ", "), "a, b c, d");
    assert_eq!(join_tokens(&Vec::new(), ", "), "");
    assert_eq!(join_tokens(&vec!["only".to_string()], " || "), "only");
}
