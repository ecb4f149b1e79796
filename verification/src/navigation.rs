//! Object navigation: the navigator's position, which may follow the system
//! focus or stay independent of it, and moves along relations supplied by a
//! platform adapter.
use vstd::prelude::*;

use crate::semantic::AccessibleNode;
use crate::text::{owned, str_eq};

verus! {

/// Opaque identity of an accessible object within its platform adapter.
#[derive(Debug, PartialEq, Eq, Hash)]
pub struct ObjectId(String);

impl View for ObjectId {
    type V = Seq<char>;

    closed spec fn view(&self) -> Seq<char> {
        self.0@
    }
}

impl ObjectId {
    pub fn new(value: &str) -> (r: Self)
        ensures
            r@ == value@,
    {
        ObjectId(owned(value))
    }

    /// Same as [`ObjectId::new`]; the form used when converting a string slice.
    pub fn from(value: &str) -> (r: Self)
        ensures
            r@ == value@,
    {
        ObjectId::new(value)
    }

    pub fn as_str(&self) -> (r: &str)
        ensures
            r@ == self@,
    {
        self.0.as_str()
    }
}

impl Clone for ObjectId {
    fn clone(&self) -> (r: Self)
        ensures
            r@ == self@,
    {
        ObjectId(self.0.clone())
    }
}

/// The view of an optional object identity.
pub open spec fn id_view(id: Option<ObjectId>) -> Option<Seq<char>> {
    match id {
        Some(i) => Some(i@),
        None => None,
    }
}

#[derive(Debug, Clone, Copy, PartialEq, Eq, Structural)]
pub enum NavigationDirection {
    Parent,
    FirstChild,
    PreviousSibling,
    NextSibling,
}

/// The tree relations of one object, as its adapter observed them.
#[derive(Debug, Clone, Default, PartialEq, Eq)]
pub struct ObjectRelations {
    pub parent: Option<ObjectId>,
    pub first_child: Option<ObjectId>,
    pub previous_sibling: Option<ObjectId>,
    pub next_sibling: Option<ObjectId>,
}

impl ObjectRelations {
    /// The object a direction leads to, if the relation exists.
    pub open spec fn target_spec(&self, direction: NavigationDirection) -> Option<Seq<char>> {
        match direction {
            NavigationDirection::Parent => id_view(self.parent),
            NavigationDirection::FirstChild => id_view(self.first_child),
            NavigationDirection::PreviousSibling => id_view(self.previous_sibling),
            NavigationDirection::NextSibling => id_view(self.next_sibling),
        }
    }

    pub fn target(&self, direction: NavigationDirection) -> (r: Option<&ObjectId>)
        ensures
            r is None <==> self.target_spec(direction) is None,
            r matches Some(id) ==> self.target_spec(direction) == Some(id@),
    {
        match direction {
            NavigationDirection::Parent => self.parent.as_ref(),
            NavigationDirection::FirstChild => self.first_child.as_ref(),
            NavigationDirection::PreviousSibling => self.previous_sibling.as_ref(),
            NavigationDirection::NextSibling => self.next_sibling.as_ref(),
        }
    }

    /// Relations with none of the four links set.
    pub fn empty() -> (r: Self)
        ensures
            r.parent is None,
            r.first_child is None,
            r.previous_sibling is None,
            r.next_sibling is None,
    {
        ObjectRelations {
            parent: None,
            first_child: None,
            previous_sibling: None,
            next_sibling: None,
        }
    }
}

/// An accessible object together with its identity and relations.
#[derive(Debug, Clone, PartialEq)]
pub struct NavigableObject {
    pub id: ObjectId,
    pub node: AccessibleNode,
    pub relations: ObjectRelations,
}

impl NavigableObject {
    pub fn new(id: &str, node: AccessibleNode) -> (r: Self)
        ensures
            r.id@ == id@,
            r.node == node,
            r.relations.parent is None,
            r.relations.first_child is None,
            r.relations.previous_sibling is None,
            r.relations.next_sibling is None,
    {
        NavigableObject { id: ObjectId::new(id), node, relations: ObjectRelations::empty() }
    }
}

/// The abstract state of a navigator.
pub struct NavigatorView {
    pub current: Option<Seq<char>>,
    pub follows_focus: bool,
}

/// The navigator's next state after a system focus report, and whether it moved.
///
/// While tracking is disabled an already placed navigator stays put, but the
/// first observed focus still initializes an empty navigator.
pub open spec fn sync_focus_step(s: NavigatorView, focus: Seq<char>) -> (NavigatorView, bool) {
    if !s.follows_focus && s.current is Some {
        (s, false)
    } else if s.current == Some(focus) {
        (s, false)
    } else {
        (NavigatorView { current: Some(focus), follows_focus: s.follows_focus }, true)
    }
}

/// The navigator's next state after a move from `object` along a relation
/// whose target is `target`, and the object reached. A relation snapshot of
/// another object than the current one cannot move the navigator.
pub open spec fn move_step(s: NavigatorView, object: Seq<char>, target: Option<Seq<char>>) -> (
    NavigatorView,
    Option<Seq<char>>,
) {
    if s.current != Some(object) {
        (s, None)
    } else {
        match target {
            None => (s, None),
            Some(t) => (NavigatorView { current: Some(t), follows_focus: s.follows_focus }, Some(t)),
        }
    }
}

/// The screen reader's independent navigation position.
#[derive(Debug, Clone, PartialEq, Eq)]
pub struct ObjectNavigator {
    current: Option<ObjectId>,
    follows_focus: bool,
}

impl View for ObjectNavigator {
    type V = NavigatorView;

    closed spec fn view(&self) -> NavigatorView {
        NavigatorView { current: id_view(self.current), follows_focus: self.follows_focus }
    }
}

impl Default for ObjectNavigator {
    fn default() -> (r: Self)
        ensures
            r@.current is None,
            r@.follows_focus,
    {
        ObjectNavigator { current: None, follows_focus: true }
    }
}

impl ObjectNavigator {
    pub fn new() -> (r: Self)
        ensures
            r@.current is None,
            r@.follows_focus,
    {
        ObjectNavigator { current: None, follows_focus: true }
    }

    pub fn current(&self) -> (r: Option<&ObjectId>)
        ensures
            r is None <==> self@.current is None,
            r matches Some(id) ==> self@.current == Some(id@),
    {
        self.current.as_ref()
    }

    pub fn follows_focus(&self) -> (r: bool)
        ensures
            r == self@.follows_focus,
    {
        self.follows_focus
    }

    pub fn set_follows_focus(&mut self, enabled: bool)
        ensures
            final(self)@.follows_focus == enabled,
            final(self)@.current == old(self)@.current,
    {
        self.follows_focus = enabled;
    }

    pub fn set_current(&mut self, id: &str)
        ensures
            final(self)@.current == Some(id@),
            final(self)@.follows_focus == old(self)@.follows_focus,
    {
        self.current = Some(ObjectId::new(id));
    }

    pub fn clear(&mut self)
        ensures
            final(self)@.current is None,
            final(self)@.follows_focus == old(self)@.follows_focus,
    {
        self.current = None;
    }

    /// Synchronize the navigator with the system focus when focus tracking is enabled.
    ///
    /// The first observed focus also initializes an empty navigator even if tracking
    /// has already been disabled. This gives callers a deterministic starting object
    /// without forcing them to maintain a second initialization path.
    pub fn sync_focus(&mut self, focus_id: &str) -> (moved: bool)
        ensures
            (final(self)@, moved) == sync_focus_step(old(self)@, focus_id@),
    {
        if !self.follows_focus && self.current.is_some() {
            return false;
        }
        let same = match &self.current {
            Some(current) => str_eq(current.as_str(), focus_id),
            None => false,
        };
        if same {
            return false;
        }
        self.current = Some(ObjectId::new(focus_id));
        true
    }

    /// Resolve a navigation command from the currently inspected object's relations.
    ///
    /// The platform adapter owns tree traversal and object lookup. The portable core
    /// only decides which relation is requested and updates the independent navigator
    /// position after the adapter supplied that relation snapshot.
    pub fn move_from(&mut self, current_object: &NavigableObject, direction: NavigationDirection) -> (r:
        Option<ObjectId>)
        ensures
            (final(self)@, id_view(r)) == move_step(
                old(self)@,
                current_object.id@,
                current_object.relations.target_spec(direction),
            ),
    {
        let on_object = match &self.current {
            Some(current) => str_eq(current.as_str(), current_object.id.as_str()),
            None => false,
        };
        if !on_object {
            return None;
        }
        match current_object.relations.target(direction) {
            None => None,
            Some(target) => {
                let target = target.clone();
                self.current = Some(target.clone());
                Some(target)
            },
        }
    }
}

/// Reporting the focus the navigator already stands on changes nothing.
pub proof fn repeated_focus_is_ignored(s: NavigatorView, focus: Seq<char>)
    ensures
        ({
            let (after, _) = sync_focus_step(s, focus);
            sync_focus_step(after, focus) == (after, false)
        }),
{
}

/// While focus tracking is on, the navigator ends on the reported focus.
pub proof fn tracking_navigator_ends_on_focus(s: NavigatorView, focus: Seq<char>)
    requires
        s.follows_focus,
    ensures
        sync_focus_step(s, focus).0.current == Some(focus),
        sync_focus_step(s, focus).1 == (s.current != Some(focus)),
{
}

/// Once placed, an independent navigator ignores every later focus report, so
/// object navigation never hands the position back to the system focus.
pub proof fn independent_navigator_ignores_focus(
    s: NavigatorView,
    object: Seq<char>,
    target: Option<Seq<char>>,
    focus: Seq<char>,
)
    requires
        !s.follows_focus,
        s.current is Some,
    ensures
        ({
            let (moved, _) = move_step(s, object, target);
            sync_focus_step(moved, focus) == (moved, false)
        }),
{
}

/// A navigator that was cleared takes the next focus, even when tracking is off.
pub proof fn cleared_navigator_takes_next_focus(s: NavigatorView, focus: Seq<char>)
    requires
        s.current is None,
    ensures
        sync_focus_step(s, focus) == (
            NavigatorView { current: Some(focus), follows_focus: s.follows_focus },
            true,
        ),
{
}

/// A move either reaches exactly the requested relation's target, or leaves
/// the navigator where it was.
pub proof fn move_reaches_target_or_stays(
    s: NavigatorView,
    object: Seq<char>,
    target: Option<Seq<char>>,
)
    ensures
        ({
            let (after, reached) = move_step(s, object, target);
            &&& reached is Some ==> (s.current == Some(object) && reached == target
                && after.current == target)
            &&& reached is None ==> after == s
            &&& after.follows_focus == s.follows_focus
        }),
{
}

} // verus!
