//! User intents understood by the screen-reader core, and the default laptop
//! gesture layout that produces them.
use vstd::prelude::*;

use crate::navigation::NavigationDirection;

verus! {

/// User intents understood by the screen-reader core.
///
/// Keyboard, braille, touch and future remote-control adapters translate their
/// native gestures into these commands. Platform accessibility backends never
/// own gesture semantics directly.
#[derive(Debug, Clone, Copy, PartialEq, Eq, Structural, Hash)]
pub enum ScreenReaderCommand {
    StopSpeech,
    ReportFocus,
    ReportNavigator,
    MoveNavigatorToFocus,
    NavigatorParent,
    NavigatorFirstChild,
    NavigatorPreviousSibling,
    NavigatorNextSibling,
    NavigatorPreviousInFlow,
    NavigatorNextInFlow,
    ActivateNavigator,
}

impl ScreenReaderCommand {
    pub open spec fn canonical_name_spec(self) -> Seq<char> {
        match self {
            ScreenReaderCommand::StopSpeech => "stop_speech"@,
            ScreenReaderCommand::ReportFocus => "report_focus"@,
            ScreenReaderCommand::ReportNavigator => "report_navigator"@,
            ScreenReaderCommand::MoveNavigatorToFocus => "navigator_to_focus"@,
            ScreenReaderCommand::NavigatorParent => "navigator_parent"@,
            ScreenReaderCommand::NavigatorFirstChild => "navigator_first_child"@,
            ScreenReaderCommand::NavigatorPreviousSibling => "navigator_previous_sibling"@,
            ScreenReaderCommand::NavigatorNextSibling => "navigator_next_sibling"@,
            ScreenReaderCommand::NavigatorPreviousInFlow => "navigator_previous_in_flow"@,
            ScreenReaderCommand::NavigatorNextInFlow => "navigator_next_in_flow"@,
            ScreenReaderCommand::ActivateNavigator => "activate_navigator"@,
        }
    }

    pub fn canonical_name(self) -> (r: &'static str)
        ensures
            r@ == self.canonical_name_spec(),
    {
        match self {
            ScreenReaderCommand::StopSpeech => "stop_speech",
            ScreenReaderCommand::ReportFocus => "report_focus",
            ScreenReaderCommand::ReportNavigator => "report_navigator",
            ScreenReaderCommand::MoveNavigatorToFocus => "navigator_to_focus",
            ScreenReaderCommand::NavigatorParent => "navigator_parent",
            ScreenReaderCommand::NavigatorFirstChild => "navigator_first_child",
            ScreenReaderCommand::NavigatorPreviousSibling => "navigator_previous_sibling",
            ScreenReaderCommand::NavigatorNextSibling => "navigator_next_sibling",
            ScreenReaderCommand::NavigatorPreviousInFlow => "navigator_previous_in_flow",
            ScreenReaderCommand::NavigatorNextInFlow => "navigator_next_in_flow",
            ScreenReaderCommand::ActivateNavigator => "activate_navigator",
        }
    }

    /// The direct tree relation a command follows; flattened in-flow
    /// navigation is not a direct relation.
    pub open spec fn hierarchy_direction_spec(self) -> Option<NavigationDirection> {
        match self {
            ScreenReaderCommand::NavigatorParent => Some(NavigationDirection::Parent),
            ScreenReaderCommand::NavigatorFirstChild => Some(NavigationDirection::FirstChild),
            ScreenReaderCommand::NavigatorPreviousSibling => Some(
                NavigationDirection::PreviousSibling,
            ),
            ScreenReaderCommand::NavigatorNextSibling => Some(NavigationDirection::NextSibling),
            _ => None,
        }
    }

    pub fn hierarchy_direction(self) -> (r: Option<NavigationDirection>)
        ensures
            r == self.hierarchy_direction_spec(),
    {
        match self {
            ScreenReaderCommand::NavigatorParent => Some(NavigationDirection::Parent),
            ScreenReaderCommand::NavigatorFirstChild => Some(NavigationDirection::FirstChild),
            ScreenReaderCommand::NavigatorPreviousSibling => Some(
                NavigationDirection::PreviousSibling,
            ),
            ScreenReaderCommand::NavigatorNextSibling => Some(NavigationDirection::NextSibling),
            _ => None,
        }
    }

    pub open spec fn changes_navigator_spec(self) -> bool {
        match self {
            ScreenReaderCommand::MoveNavigatorToFocus
            | ScreenReaderCommand::NavigatorParent
            | ScreenReaderCommand::NavigatorFirstChild
            | ScreenReaderCommand::NavigatorPreviousSibling
            | ScreenReaderCommand::NavigatorNextSibling
            | ScreenReaderCommand::NavigatorPreviousInFlow
            | ScreenReaderCommand::NavigatorNextInFlow => true,
            _ => false,
        }
    }

    pub fn changes_navigator(self) -> (r: bool)
        ensures
            r == self.changes_navigator_spec(),
    {
        match self {
            ScreenReaderCommand::MoveNavigatorToFocus
            | ScreenReaderCommand::NavigatorParent
            | ScreenReaderCommand::NavigatorFirstChild
            | ScreenReaderCommand::NavigatorPreviousSibling
            | ScreenReaderCommand::NavigatorNextSibling
            | ScreenReaderCommand::NavigatorPreviousInFlow
            | ScreenReaderCommand::NavigatorNextInFlow => true,
            _ => false,
        }
    }

    /// Every command but activation leaves the inspected application untouched.
    pub fn is_read_only(self) -> (r: bool)
        ensures
            r == (self != ScreenReaderCommand::ActivateNavigator),
    {
        match self {
            ScreenReaderCommand::ActivateNavigator => false,
            _ => true,
        }
    }
}

/// Stable gesture identifiers used by configuration and platform input
/// adapters. They describe physical intent rather than a platform API.
#[derive(Debug, Clone, Copy, PartialEq, Eq, Structural, Hash)]
pub enum GestureId {
    Escape,
    ScreenReaderBackspace,
    ScreenReaderShiftLeft,
    ScreenReaderShiftRight,
    ScreenReaderShiftUp,
    ScreenReaderShiftDown,
    ScreenReaderShiftLeftBracket,
    ScreenReaderShiftRightBracket,
    ScreenReaderEnter,
}

/// The command each gesture triggers in the default laptop layout.
pub open spec fn default_laptop_command_spec(gesture: GestureId) -> Option<ScreenReaderCommand> {
    match gesture {
        GestureId::Escape => Some(ScreenReaderCommand::StopSpeech),
        GestureId::ScreenReaderBackspace => Some(ScreenReaderCommand::MoveNavigatorToFocus),
        GestureId::ScreenReaderShiftLeft => Some(ScreenReaderCommand::NavigatorPreviousSibling),
        GestureId::ScreenReaderShiftRight => Some(ScreenReaderCommand::NavigatorNextSibling),
        GestureId::ScreenReaderShiftUp => Some(ScreenReaderCommand::NavigatorParent),
        GestureId::ScreenReaderShiftDown => Some(ScreenReaderCommand::NavigatorFirstChild),
        GestureId::ScreenReaderShiftLeftBracket => Some(
            ScreenReaderCommand::NavigatorPreviousInFlow,
        ),
        GestureId::ScreenReaderShiftRightBracket => Some(ScreenReaderCommand::NavigatorNextInFlow),
        GestureId::ScreenReaderEnter => Some(ScreenReaderCommand::ActivateNavigator),
    }
}

pub fn default_laptop_command(gesture: GestureId) -> (r: Option<ScreenReaderCommand>)
    ensures
        r == default_laptop_command_spec(gesture),
{
    match gesture {
        GestureId::Escape => Some(ScreenReaderCommand::StopSpeech),
        GestureId::ScreenReaderBackspace => Some(ScreenReaderCommand::MoveNavigatorToFocus),
        GestureId::ScreenReaderShiftLeft => Some(ScreenReaderCommand::NavigatorPreviousSibling),
        GestureId::ScreenReaderShiftRight => Some(ScreenReaderCommand::NavigatorNextSibling),
        GestureId::ScreenReaderShiftUp => Some(ScreenReaderCommand::NavigatorParent),
        GestureId::ScreenReaderShiftDown => Some(ScreenReaderCommand::NavigatorFirstChild),
        GestureId::ScreenReaderShiftLeftBracket => Some(
            ScreenReaderCommand::NavigatorPreviousInFlow,
        ),
        GestureId::ScreenReaderShiftRightBracket => Some(ScreenReaderCommand::NavigatorNextInFlow),
        GestureId::ScreenReaderEnter => Some(ScreenReaderCommand::ActivateNavigator),
    }
}

/// Every command that follows a tree relation moves the navigator.
pub proof fn hierarchy_commands_change_navigator(command: ScreenReaderCommand)
    ensures
        command.hierarchy_direction_spec() is Some ==> command.changes_navigator_spec(),
{
}

/// Commands that move the navigator never act on the application.
pub proof fn navigator_moves_are_read_only(command: ScreenReaderCommand)
    ensures
        command.changes_navigator_spec() ==> command != ScreenReaderCommand::ActivateNavigator,
{
}

/// The default laptop layout binds every gesture, and no two gestures to the
/// same command.
pub proof fn default_laptop_layout_is_total_and_injective(a: GestureId, b: GestureId)
    ensures
        default_laptop_command_spec(a) is Some,
        a != b ==> default_laptop_command_spec(a) != default_laptop_command_spec(b),
{
}

/// The default laptop layout follows the gestures' geometry: Escape stops
/// speech, Backspace returns the navigator to the focus, shift-left and
/// shift-right move to the previous and next sibling, shift-up to the parent
/// and shift-down to the first child, the left and right brackets move to the
/// previous and next object in reading flow, and Enter activates.
pub proof fn laptop_layout_follows_gesture_geometry()
    ensures
        default_laptop_command_spec(GestureId::Escape) == Some(ScreenReaderCommand::StopSpeech),
        default_laptop_command_spec(GestureId::ScreenReaderBackspace) == Some(
            ScreenReaderCommand::MoveNavigatorToFocus,
        ),
        default_laptop_command_spec(GestureId::ScreenReaderShiftLeft) == Some(
            ScreenReaderCommand::NavigatorPreviousSibling,
        ),
        default_laptop_command_spec(GestureId::ScreenReaderShiftRight) == Some(
            ScreenReaderCommand::NavigatorNextSibling,
        ),
        default_laptop_command_spec(GestureId::ScreenReaderShiftUp) == Some(
            ScreenReaderCommand::NavigatorParent,
        ),
        default_laptop_command_spec(GestureId::ScreenReaderShiftDown) == Some(
            ScreenReaderCommand::NavigatorFirstChild,
        ),
        default_laptop_command_spec(GestureId::ScreenReaderShiftLeftBracket) == Some(
            ScreenReaderCommand::NavigatorPreviousInFlow,
        ),
        default_laptop_command_spec(GestureId::ScreenReaderShiftRightBracket) == Some(
            ScreenReaderCommand::NavigatorNextInFlow,
        ),
        default_laptop_command_spec(GestureId::ScreenReaderEnter) == Some(
            ScreenReaderCommand::ActivateNavigator,
        ),
{
}

/// The arrow gestures follow the tree relation they point at: left and right
/// to the previous and next sibling, up to the parent, down to the first
/// child.
pub proof fn arrow_gestures_follow_tree_relations()
    ensures
        default_laptop_command_spec(GestureId::ScreenReaderShiftLeft).unwrap().hierarchy_direction_spec()
            == Some(NavigationDirection::PreviousSibling),
        default_laptop_command_spec(GestureId::ScreenReaderShiftRight).unwrap().hierarchy_direction_spec()
            == Some(NavigationDirection::NextSibling),
        default_laptop_command_spec(GestureId::ScreenReaderShiftUp).unwrap().hierarchy_direction_spec()
            == Some(NavigationDirection::Parent),
        default_laptop_command_spec(GestureId::ScreenReaderShiftDown).unwrap().hierarchy_direction_spec()
            == Some(NavigationDirection::FirstChild),
{
}

} // verus!
