use nvda_rust_uia_standalone::platform::{current_backend, BackendKind};

#[test]
fn backend_api_names_are_stable() {
    assert_eq!(
        BackendKind::WindowsUia.native_api(),
        "Microsoft UI Automation (UIA)"
    );
    assert_eq!(
        BackendKind::MacOsAccessibility.native_api(),
        "macOS Accessibility (AXUIElement/AXObserver)"
    );
    assert_eq!(BackendKind::LinuxAtSpi2.native_api(), "AT-SPI2 over D-Bus");
    assert_eq!(
        BackendKind::AndroidAccessibilityService.native_api(),
        "Android AccessibilityService / AccessibilityNodeInfo"
    );
    assert_eq!(
        BackendKind::IosAccessibilityClient.native_api(),
        "iOS UIAccessibility / Accessibility framework (app-scoped)"
    );
}

#[test]
fn system_screen_reader_capability_is_explicit() {
    assert!(BackendKind::WindowsUia.is_system_screen_reader_capable());
    assert!(BackendKind::MacOsAccessibility.is_system_screen_reader_capable());
    assert!(BackendKind::LinuxAtSpi2.is_system_screen_reader_capable());
    assert!(BackendKind::AndroidAccessibilityService.is_system_screen_reader_capable());
    assert!(!BackendKind::IosAccessibilityClient.is_system_screen_reader_capable());
}

#[test]
fn windows_is_current_reference_backend() {
    assert!(BackendKind::WindowsUia.is_native_backend_implemented());
    assert!(!BackendKind::MacOsAccessibility.is_native_backend_implemented());
    assert!(!BackendKind::LinuxAtSpi2.is_native_backend_implemented());
    assert!(!BackendKind::AndroidAccessibilityService.is_native_backend_implemented());
    assert!(!BackendKind::IosAccessibilityClient.is_native_backend_implemented());
}

#[test]
fn backend_is_selected_by_target_os() {
    assert_eq!(current_backend("windows"), BackendKind::WindowsUia);
    assert_eq!(current_backend("macos"), BackendKind::MacOsAccessibility);
    assert_eq!(current_backend("android"), BackendKind::AndroidAccessibilityService);
    assert_eq!(current_backend("ios"), BackendKind::IosAccessibilityClient);
    assert_eq!(current_backend("linux"), BackendKind::LinuxAtSpi2);
    assert_eq!(current_backend("freebsd"), BackendKind::Unsupported);
    assert_eq!(
        BackendKind::Unsupported.native_api(),
        "unsupported accessibility backend"
    );
    assert!(!BackendKind::Unsupported.is_system_screen_reader_capable());
}
