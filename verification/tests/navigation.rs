use nvda_rust_uia_standalone::navigation::{
    NavigableObject, NavigationDirection, ObjectId, ObjectNavigator, ObjectRelations,
};
use nvda_rust_uia_standalone::semantic::{AccessibleNode, Role};

fn object(id: &str) -> NavigableObject {
    NavigableObject::new(
        id,
        AccessibleNode {
            role: Role::Button,
            name: id.to_string(),
            ..AccessibleNode::default()
        },
    )
}

#[test]
fn navigator_follows_focus_by_default() {
    let mut navigator = ObjectNavigator::new();
    assert!(navigator.follows_focus());
    assert!(navigator.sync_focus("editor"));
    assert_eq!(navigator.current().map(ObjectId::as_str), Some("editor"));
    assert!(navigator.sync_focus("apply"));
    assert_eq!(navigator.current().map(ObjectId::as_str), Some("apply"));
}

#[test]
fn navigator_can_remain_independent_from_focus() {
    let mut navigator = ObjectNavigator::new();
    navigator.sync_focus("editor");
    navigator.set_follows_focus(false);

    assert!(!navigator.sync_focus("apply"));
    assert_eq!(navigator.current().map(ObjectId::as_str), Some("editor"));
}

#[test]
fn disabled_focus_tracking_still_initializes_empty_navigator() {
    let mut navigator = ObjectNavigator::new();
    navigator.set_follows_focus(false);

    assert!(navigator.sync_focus("initial-focus"));
    assert_eq!(
        navigator.current().map(ObjectId::as_str),
        Some("initial-focus")
    );
}

#[test]
fn object_navigation_moves_without_changing_system_focus() {
    let mut root = object("root");
    root.relations.first_child = Some(ObjectId::from("first"));

    let mut navigator = ObjectNavigator::new();
    navigator.sync_focus("root");
    navigator.set_follows_focus(false);

    let target = navigator.move_from(&root, NavigationDirection::FirstChild);
    assert_eq!(target.as_ref().map(ObjectId::as_str), Some("first"));
    assert_eq!(navigator.current().map(ObjectId::as_str), Some("first"));

    // A later system focus event is intentionally ignored.
    assert!(!navigator.sync_focus("unrelated-focus"));
    assert_eq!(navigator.current().map(ObjectId::as_str), Some("first"));
}

#[test]
fn parent_and_sibling_relations_are_directional() {
    let relations = ObjectRelations {
        parent: Some(ObjectId::from("parent")),
        first_child: Some(ObjectId::from("child")),
        previous_sibling: Some(ObjectId::from("previous")),
        next_sibling: Some(ObjectId::from("next")),
    };

    assert_eq!(
        relations
            .target(NavigationDirection::Parent)
            .map(ObjectId::as_str),
        Some("parent")
    );
    assert_eq!(
        relations
            .target(NavigationDirection::FirstChild)
            .map(ObjectId::as_str),
        Some("child")
    );
    assert_eq!(
        relations
            .target(NavigationDirection::PreviousSibling)
            .map(ObjectId::as_str),
        Some("previous")
    );
    assert_eq!(
        relations
            .target(NavigationDirection::NextSibling)
            .map(ObjectId::as_str),
        Some("next")
    );
}

#[test]
fn unavailable_relation_does_not_move_navigator() {
    let current = object("only");
    let mut navigator = ObjectNavigator::new();
    navigator.sync_focus("only");

    assert_eq!(
        navigator.move_from(&current, NavigationDirection::NextSibling),
        None
    );
    assert_eq!(navigator.current().map(ObjectId::as_str), Some("only"));
}

#[test]
fn stale_relation_snapshot_cannot_move_current_navigator() {
    let mut stale = object("old");
    stale.relations.next_sibling = Some(ObjectId::from("wrong"));

    let mut navigator = ObjectNavigator::new();
    navigator.sync_focus("current");

    assert_eq!(
        navigator.move_from(&stale, NavigationDirection::NextSibling),
        None
    );
    assert_eq!(navigator.current().map(ObjectId::as_str), Some("current"));
}

#[test]
fn clear_resets_navigation_position() {
    let mut navigator = ObjectNavigator::new();
    navigator.sync_focus("editor");
    navigator.clear();
    assert_eq!(navigator.current(), None);
}

#[test]
fn repeated_focus_report_does_not_move_again() {
    let mut navigator = ObjectNavigator::new();
    assert!(navigator.sync_focus("editor"));
    assert!(!navigator.sync_focus("editor"));
    assert_eq!(navigator.current().map(ObjectId::as_str), Some("editor"));
}

#[test]
fn cleared_independent_navigator_takes_next_focus() {
    let mut navigator = ObjectNavigator::default();
    navigator.sync_focus("editor");
    navigator.set_follows_focus(false);
    navigator.clear();
    assert!(navigator.sync_focus("dialog"));
    assert_eq!(navigator.current().map(ObjectId::as_str), Some("dialog"));
    assert!(!navigator.follows_focus());
}

#[test]
fn set_current_and_parent_move() {
    let mut child = object("child");
    child.relations.parent = Some(ObjectId::new("window"));
    let mut navigator = ObjectNavigator::new();
    navigator.set_current("child");
    let reached = navigator.move_from(&child, NavigationDirection::Parent);
    assert_eq!(reached, Some(ObjectId::from("window")));
    assert_eq!(navigator.current().map(ObjectId::as_str), Some("window"));
    assert_eq!(child.id.as_str(), "child");
    assert_eq!(ObjectId::from("x").clone().as_str(), "x");
}
