use atspi::{Role as AtspiRole, State as AtspiState, StateSet};
use nvda_rust_uia_standalone::linux_semantic::{role_from_atspi, states_from_atspi};
use nvda_rust_uia_standalone::semantic::{Role, State};

#[test]
fn maps_core_roles() {
    assert_eq!(role_from_atspi(AtspiRole::Button as u32, StateSet::empty().bits()), Role::Button);
    assert_eq!(role_from_atspi(AtspiRole::Heading as u32, StateSet::empty().bits()), Role::Heading);
    assert_eq!(role_from_atspi(AtspiRole::Terminal as u32, StateSet::empty().bits()), Role::Terminal);
}

#[test]
fn text_role_uses_editable_state() {
    let editable = StateSet::new(AtspiState::Editable);
    assert_eq!(role_from_atspi(AtspiRole::Text as u32, editable.bits()), Role::EditableText);
    assert_eq!(role_from_atspi(AtspiRole::Text as u32, StateSet::empty().bits()), Role::StaticText);
}

#[test]
fn password_state_is_explicit() {
    let states = states_from_atspi(
        AtspiRole::PasswordText as u32,
        StateSet::new(AtspiState::Focusable).bits(),
    );
    assert!(states.contains(&State::Password));
    assert!(states.contains(&State::Focusable));
}

#[test]
fn states_follow_the_atspi_state_set() {
    let set = StateSet::new(
        AtspiState::Focused
            | AtspiState::Enabled
            | AtspiState::Checked
            | AtspiState::Expanded
            | AtspiState::Collapsed
            | AtspiState::InvalidEntry
            | AtspiState::MultiLine
            | AtspiState::ReadOnly,
    );
    assert_eq!(
        states_from_atspi(AtspiRole::Entry as u32, set.bits()),
        vec![
            State::Focused,
            State::Enabled,
            State::Checked,
            State::Expanded,
            State::ReadOnly,
            State::Invalid,
            State::Multiline,
        ]
    );
    assert_eq!(
        states_from_atspi(AtspiRole::Label as u32, StateSet::empty().bits()),
        vec![State::Disabled]
    );
}

#[test]
fn role_groups_map_to_one_role() {
    let empty = StateSet::empty().bits();
    assert_eq!(role_from_atspi(AtspiRole::Frame as u32, empty), Role::Window);
    assert_eq!(role_from_atspi(AtspiRole::DocumentWeb as u32, empty), Role::Document);
    assert_eq!(role_from_atspi(AtspiRole::PushButtonMenu as u32, empty), Role::Button);
    assert_eq!(role_from_atspi(AtspiRole::LevelBar as u32, empty), Role::ProgressBar);
    assert_eq!(role_from_atspi(AtspiRole::TearoffMenuItem as u32, empty), Role::MenuItem);
    assert_eq!(role_from_atspi(AtspiRole::PageTabList as u32, empty), Role::TabPanel);
    assert_eq!(role_from_atspi(AtspiRole::Panel as u32, empty), Role::Unknown);
    assert_eq!(role_from_atspi(AtspiRole::PasswordText as u32, empty), Role::EditableText);
}
