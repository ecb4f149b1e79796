use nvda_rust_uia_standalone::semantic::Role;
use nvda_rust_uia_standalone::uia::role_from_control_type_id;

#[test]
fn common_interactive_control_types_are_locale_independent() {
    assert_eq!(role_from_control_type_id(50000), Role::Button);
    assert_eq!(role_from_control_type_id(50004), Role::EditableText);
    assert_eq!(role_from_control_type_id(50013), Role::RadioButton);
    assert_eq!(role_from_control_type_id(50024), Role::TreeItem);
    assert_eq!(role_from_control_type_id(50030), Role::Document);
    assert_eq!(role_from_control_type_id(50036), Role::Table);
}

#[test]
fn tab_container_and_tab_item_remain_distinct() {
    assert_eq!(role_from_control_type_id(50018), Role::TabPanel);
    assert_eq!(role_from_control_type_id(50019), Role::Tab);
}

#[test]
fn unknown_or_custom_control_types_do_not_guess_semantics() {
    assert_eq!(role_from_control_type_id(50025), Role::Unknown);
    assert_eq!(role_from_control_type_id(0), Role::Unknown);
    assert_eq!(role_from_control_type_id(i32::MAX), Role::Unknown);
}

#[test]
fn basic_mapping_agrees_with_adapter_where_known() {
    for id in 49990..50050 {
        let basic = role_from_control_type_id(id);
        if basic != Role::Unknown {
            assert_eq!(
                nvda_rust_uia_standalone::uia_semantic::role_from_control_type_id(id),
                basic
            );
        }
    }
    assert_eq!(role_from_control_type_id(50017), Role::Unknown);
    assert_eq!(role_from_control_type_id(50034), Role::Unknown);
    assert_eq!(role_from_control_type_id(50010), Role::Menu);
    assert_eq!(role_from_control_type_id(50040), Role::Toolbar);
}
