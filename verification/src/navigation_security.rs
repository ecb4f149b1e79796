//! Navigation guard for locked sessions.
use vstd::prelude::*;

verus! {

/// Security context evaluated before the navigator is allowed to enter a
/// target object. Platform adapters are responsible for determining whether a
/// session is locked and whether a target belongs to content hidden behind the
/// lock surface.
#[derive(Debug, Clone, Copy, Default, PartialEq, Eq, Structural)]
pub struct NavigationSecurityContext {
    pub session_locked: bool,
    pub target_hidden_behind_lock_surface: bool,
}

#[derive(Debug, Clone, Copy, PartialEq, Eq, Structural)]
pub enum NavigationSecurityDecision {
    Allow,
    DenyLockedSessionEscape,
}

/// Denied exactly when the session is locked and the target lies behind the
/// lock surface.
pub open spec fn navigation_decision_spec(
    context: NavigationSecurityContext,
) -> NavigationSecurityDecision {
    if context.session_locked && context.target_hidden_behind_lock_surface {
        NavigationSecurityDecision::DenyLockedSessionEscape
    } else {
        NavigationSecurityDecision::Allow
    }
}

pub fn evaluate_navigation_target(context: NavigationSecurityContext) -> (r:
    NavigationSecurityDecision)
    ensures
        r == navigation_decision_spec(context),
{
    if context.session_locked && context.target_hidden_behind_lock_surface {
        NavigationSecurityDecision::DenyLockedSessionEscape
    } else {
        NavigationSecurityDecision::Allow
    }
}

pub fn navigation_target_allowed(context: NavigationSecurityContext) -> (r: bool)
    ensures
        r == (navigation_decision_spec(context) == NavigationSecurityDecision::Allow),
        r == !(context.session_locked && context.target_hidden_behind_lock_surface),
{
    match evaluate_navigation_target(context) {
        NavigationSecurityDecision::Allow => true,
        NavigationSecurityDecision::DenyLockedSessionEscape => false,
    }
}

/// An unlocked session never restricts navigation, and a locked one still
/// allows everything on the lock surface itself.
pub proof fn only_locked_hidden_targets_are_denied(context: NavigationSecurityContext)
    ensures
        !context.session_locked ==> navigation_decision_spec(context)
            == NavigationSecurityDecision::Allow,
        !context.target_hidden_behind_lock_surface ==> navigation_decision_spec(context)
            == NavigationSecurityDecision::Allow,
{
}

} // verus!
