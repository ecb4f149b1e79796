use nvda_rust_uia_standalone::semantic::{Role, State};
use nvda_rust_uia_standalone::uia_semantic::{
    build_accessible_node, role_from_control_type_id, UiaSemanticInput,
    UIA_BUTTON_CONTROL_TYPE_ID, UIA_CHECK_BOX_CONTROL_TYPE_ID, UIA_EDIT_CONTROL_TYPE_ID,
    UIA_HEADER_CONTROL_TYPE_ID, UIA_STATUS_BAR_CONTROL_TYPE_ID, UIA_TREE_ITEM_CONTROL_TYPE_ID,
};

fn base(control_type_id: i32) -> UiaSemanticInput<'static> {
    UiaSemanticInput {
        process_id: 42,
        platform_id: "opaque-id",
        control_type_id,
        native_role: "native",
        name: "Name",
        description: "Description",
        value: "Value",
        is_password: false,
        is_enabled: true,
        is_keyboard_focusable: true,
        has_keyboard_focus: true,
        is_offscreen: false,
        is_selected: None,
        toggle_state: None,
        expand_collapse_state: None,
    }
}

#[test]
fn common_control_types_map_to_platform_neutral_roles() {
    assert_eq!(role_from_control_type_id(50000), Role::Button);
    assert_eq!(role_from_control_type_id(50002), Role::CheckBox);
    assert_eq!(role_from_control_type_id(50004), Role::EditableText);
    assert_eq!(role_from_control_type_id(50005), Role::Link);
    assert_eq!(role_from_control_type_id(50030), Role::Document);
    assert_eq!(role_from_control_type_id(50036), Role::Table);
    assert_eq!(role_from_control_type_id(99999), Role::Unknown);
}

#[test]
fn password_value_is_removed_at_adapter_boundary() {
    let mut input = base(UIA_EDIT_CONTROL_TYPE_ID);
    input.is_password = true;
    input.value = "must-never-cross-boundary";
    let node = build_accessible_node(input);
    assert!(node.has_state(State::Password));
    assert!(node.has_state(State::Editable));
    assert_eq!(node.value, "");
}

#[test]
fn toggle_and_expand_states_are_semantic() {
    let mut input = base(UIA_CHECK_BOX_CONTROL_TYPE_ID);
    input.toggle_state = Some(1);
    input.expand_collapse_state = Some(0);
    let node = build_accessible_node(input);
    assert!(node.has_state(State::Checked));
    assert!(node.has_state(State::Collapsed));
}

#[test]
fn disabled_is_explicit_and_not_enabled() {
    let mut input = base(UIA_BUTTON_CONTROL_TYPE_ID);
    input.is_enabled = false;
    let node = build_accessible_node(input);
    assert!(node.has_state(State::Disabled));
    assert!(!node.has_state(State::Enabled));
}

#[test]
fn adapter_copies_identity_and_lists_states_in_order() {
    let mut input = base(UIA_TREE_ITEM_CONTROL_TYPE_ID);
    input.is_offscreen = true;
    input.is_selected = Some(true);
    input.toggle_state = Some(2);
    input.expand_collapse_state = Some(2);
    let node = build_accessible_node(input);
    assert_eq!(node.process_id, 42);
    assert_eq!(node.platform_id, "opaque-id");
    assert_eq!(node.role, Role::TreeItem);
    assert_eq!(node.native_role, "native");
    assert_eq!(node.name, "Name");
    assert_eq!(node.description, "Description");
    assert_eq!(node.value, "Value");
    assert_eq!(
        node.states,
        vec![
            State::Focused,
            State::Focusable,
            State::Enabled,
            State::Offscreen,
            State::Selected,
            State::Mixed,
            State::Expanded,
        ]
    );
}

#[test]
fn unselected_leaf_and_unknown_toggle_add_no_state() {
    let mut input = base(UIA_BUTTON_CONTROL_TYPE_ID);
    input.is_selected = Some(false);
    input.toggle_state = Some(0);
    input.expand_collapse_state = Some(3);
    input.has_keyboard_focus = false;
    input.is_keyboard_focusable = false;
    let node = build_accessible_node(input);
    assert_eq!(node.states, vec![State::Enabled]);
}

#[test]
fn adapter_reads_status_bar_as_text_and_header_as_row() {
    assert_eq!(role_from_control_type_id(UIA_STATUS_BAR_CONTROL_TYPE_ID), Role::StaticText);
    assert_eq!(role_from_control_type_id(50022), Role::StaticText);
    assert_eq!(role_from_control_type_id(50037), Role::StaticText);
    assert_eq!(role_from_control_type_id(UIA_HEADER_CONTROL_TYPE_ID), Role::Row);
    assert_eq!(role_from_control_type_id(50031), Role::Button);
}
