use nvda_rust_uia_standalone::navigation_security::{
    evaluate_navigation_target, navigation_target_allowed, NavigationSecurityContext,
    NavigationSecurityDecision,
};

#[test]
fn unlocked_session_allows_normal_navigation() {
    assert!(navigation_target_allowed(NavigationSecurityContext {
        session_locked: false,
        target_hidden_behind_lock_surface: true,
    }));
}

#[test]
fn locked_session_allows_objects_on_lock_surface() {
    assert!(navigation_target_allowed(NavigationSecurityContext {
        session_locked: true,
        target_hidden_behind_lock_surface: false,
    }));
}

#[test]
fn locked_session_blocks_escape_to_hidden_desktop_content() {
    assert_eq!(
        evaluate_navigation_target(NavigationSecurityContext {
            session_locked: true,
            target_hidden_behind_lock_surface: true,
        }),
        NavigationSecurityDecision::DenyLockedSessionEscape
    );
}

#[test]
fn only_locked_hidden_target_is_denied() {
    for locked in [false, true] {
        for hidden in [false, true] {
            let context = NavigationSecurityContext {
                session_locked: locked,
                target_hidden_behind_lock_surface: hidden,
            };
            assert_eq!(navigation_target_allowed(context), !(locked && hidden));
        }
    }
    assert!(navigation_target_allowed(NavigationSecurityContext::default()));
    assert!(!navigation_target_allowed(NavigationSecurityContext {
        session_locked: true,
        target_hidden_behind_lock_surface: true,
    }));
}
