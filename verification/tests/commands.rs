use nvda_rust_uia_standalone::commands::{default_laptop_command, GestureId, ScreenReaderCommand};
use nvda_rust_uia_standalone::navigation::NavigationDirection;

#[test]
fn hierarchical_commands_map_to_navigation_directions() {
    assert_eq!(
        ScreenReaderCommand::NavigatorParent.hierarchy_direction(),
        Some(NavigationDirection::Parent)
    );
    assert_eq!(
        ScreenReaderCommand::NavigatorFirstChild.hierarchy_direction(),
        Some(NavigationDirection::FirstChild)
    );
    assert_eq!(
        ScreenReaderCommand::NavigatorPreviousSibling.hierarchy_direction(),
        Some(NavigationDirection::PreviousSibling)
    );
    assert_eq!(
        ScreenReaderCommand::NavigatorNextSibling.hierarchy_direction(),
        Some(NavigationDirection::NextSibling)
    );
}

#[test]
fn flattened_navigation_is_not_misrepresented_as_direct_tree_relation() {
    assert_eq!(
        ScreenReaderCommand::NavigatorPreviousInFlow.hierarchy_direction(),
        None
    );
    assert_eq!(
        ScreenReaderCommand::NavigatorNextInFlow.hierarchy_direction(),
        None
    );
}

#[test]
fn default_laptop_object_navigation_matches_reference_intent() {
    assert_eq!(
        default_laptop_command(GestureId::ScreenReaderShiftLeft),
        Some(ScreenReaderCommand::NavigatorPreviousSibling)
    );
    assert_eq!(
        default_laptop_command(GestureId::ScreenReaderShiftRight),
        Some(ScreenReaderCommand::NavigatorNextSibling)
    );
    assert_eq!(
        default_laptop_command(GestureId::ScreenReaderShiftUp),
        Some(ScreenReaderCommand::NavigatorParent)
    );
    assert_eq!(
        default_laptop_command(GestureId::ScreenReaderShiftDown),
        Some(ScreenReaderCommand::NavigatorFirstChild)
    );
}

#[test]
fn focus_sync_and_activation_are_distinct_commands() {
    assert!(ScreenReaderCommand::MoveNavigatorToFocus.changes_navigator());
    assert!(ScreenReaderCommand::MoveNavigatorToFocus.is_read_only());
    assert!(!ScreenReaderCommand::ActivateNavigator.changes_navigator());
    assert!(!ScreenReaderCommand::ActivateNavigator.is_read_only());
}

#[test]
fn command_names_are_stable_and_platform_neutral() {
    assert_eq!(ScreenReaderCommand::StopSpeech.canonical_name(), "stop_speech");
    assert_eq!(
        ScreenReaderCommand::NavigatorNextInFlow.canonical_name(),
        "navigator_next_in_flow"
    );
    assert_eq!(
        ScreenReaderCommand::ActivateNavigator.canonical_name(),
        "activate_navigator"
    );
}

const ALL_GESTURES: [GestureId; 9] = [
    GestureId::Escape,
    GestureId::ScreenReaderBackspace,
    GestureId::ScreenReaderShiftLeft,
    GestureId::ScreenReaderShiftRight,
    GestureId::ScreenReaderShiftUp,
    GestureId::ScreenReaderShiftDown,
    GestureId::ScreenReaderShiftLeftBracket,
    GestureId::ScreenReaderShiftRightBracket,
    GestureId::ScreenReaderEnter,
];

#[test]
fn every_gesture_is_bound_to_its_own_command() {
    let mut seen = Vec::new();
    for gesture in ALL_GESTURES {
        let command = default_laptop_command(gesture).expect("bound");
        assert!(!seen.contains(&command));
        seen.push(command);
    }
    assert_eq!(
        default_laptop_command(GestureId::Escape),
        Some(ScreenReaderCommand::StopSpeech)
    );
    assert_eq!(
        default_laptop_command(GestureId::ScreenReaderBackspace),
        Some(ScreenReaderCommand::MoveNavigatorToFocus)
    );
    assert_eq!(
        default_laptop_command(GestureId::ScreenReaderEnter),
        Some(ScreenReaderCommand::ActivateNavigator)
    );
}

#[test]
fn tree_commands_move_the_navigator_and_stay_read_only() {
    for gesture in ALL_GESTURES {
        let command = default_laptop_command(gesture).unwrap();
        if command.hierarchy_direction().is_some() {
            assert!(command.changes_navigator());
        }
        if command.changes_navigator() {
            assert!(command.is_read_only());
        }
    }
    assert!(!ScreenReaderCommand::StopSpeech.changes_navigator());
    assert!(!ScreenReaderCommand::ReportFocus.changes_navigator());
    assert_eq!(ScreenReaderCommand::MoveNavigatorToFocus.canonical_name(), "navigator_to_focus");
    assert_eq!(ScreenReaderCommand::ReportNavigator.canonical_name(), "report_navigator");
}
