use nvda_rust_uia_standalone::macos_semantic::role_from_ax;
use nvda_rust_uia_standalone::semantic::Role;

#[test]
fn maps_common_ax_roles() {
    assert_eq!(role_from_ax("AXButton"), Role::Button);
    assert_eq!(role_from_ax("AXTextField"), Role::EditableText);
    assert_eq!(role_from_ax("AXWebArea"), Role::Document);
    assert_eq!(role_from_ax("AXTable"), Role::Table);
}

#[test]
fn preserves_unknown_native_roles_as_unknown() {
    assert_eq!(role_from_ax("AXFutureRole"), Role::Unknown);
}

#[test]
fn ax_aliases_and_exact_matching() {
    assert_eq!(role_from_ax("AXSheet"), Role::Dialog);
    assert_eq!(role_from_ax("AXPopUpButton"), Role::ComboBox);
    assert_eq!(role_from_ax("AXMenuButton"), Role::MenuItem);
    assert_eq!(role_from_ax("AXGrid"), Role::Table);
    assert_eq!(role_from_ax("AXTabGroup"), Role::TabPanel);
    assert_eq!(role_from_ax("axbutton"), Role::Unknown);
    assert_eq!(role_from_ax("AXButton "), Role::Unknown);
    assert_eq!(role_from_ax(""), Role::Unknown);
}
