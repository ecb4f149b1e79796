//! The native accessibility backends the screen reader targets.
use vstd::prelude::*;

use crate::text::str_eq;

verus! {

#[derive(Debug, Clone, Copy, PartialEq, Eq, Structural)]
pub enum BackendKind {
    WindowsUia,
    MacOsAccessibility,
    LinuxAtSpi2,
    AndroidAccessibilityService,
    IosAccessibilityClient,
    Unsupported,
}

impl BackendKind {
    pub open spec fn native_api_spec(self) -> Seq<char> {
        match self {
            BackendKind::WindowsUia => "Microsoft UI Automation (UIA)"@,
            BackendKind::MacOsAccessibility => "macOS Accessibility (AXUIElement/AXObserver)"@,
            BackendKind::LinuxAtSpi2 => "AT-SPI2 over D-Bus"@,
            BackendKind::AndroidAccessibilityService =>
                "Android AccessibilityService / AccessibilityNodeInfo"@,
            BackendKind::IosAccessibilityClient =>
                "iOS UIAccessibility / Accessibility framework (app-scoped)"@,
            BackendKind::Unsupported => "unsupported accessibility backend"@,
        }
    }

    pub fn native_api(self) -> (r: &'static str)
        ensures
            r@ == self.native_api_spec(),
    {
        match self {
            BackendKind::WindowsUia => "Microsoft UI Automation (UIA)",
            BackendKind::MacOsAccessibility => "macOS Accessibility (AXUIElement/AXObserver)",
            BackendKind::LinuxAtSpi2 => "AT-SPI2 over D-Bus",
            BackendKind::AndroidAccessibilityService => {
                "Android AccessibilityService / AccessibilityNodeInfo"
            },
            BackendKind::IosAccessibilityClient => {
                "iOS UIAccessibility / Accessibility framework (app-scoped)"
            },
            BackendKind::Unsupported => "unsupported accessibility backend",
        }
    }

    /// Platforms whose API lets a third party act as the system screen reader.
    pub open spec fn system_capable_spec(self) -> bool {
        match self {
            BackendKind::WindowsUia
            | BackendKind::MacOsAccessibility
            | BackendKind::LinuxAtSpi2
            | BackendKind::AndroidAccessibilityService => true,
            _ => false,
        }
    }

    pub fn is_system_screen_reader_capable(self) -> (r: bool)
        ensures
            r == self.system_capable_spec(),
    {
        match self {
            BackendKind::WindowsUia
            | BackendKind::MacOsAccessibility
            | BackendKind::LinuxAtSpi2
            | BackendKind::AndroidAccessibilityService => true,
            _ => false,
        }
    }

    pub fn is_native_backend_implemented(self) -> (r: bool)
        ensures
            r == (self == BackendKind::WindowsUia),
    {
        match self {
            BackendKind::WindowsUia => true,
            _ => false,
        }
    }
}

/// The backend selected for a target operating system, named as Rust's
/// `target_os` names it.
pub open spec fn backend_for_os_spec(target_os: Seq<char>) -> BackendKind {
    if target_os == "windows"@ {
        BackendKind::WindowsUia
    } else if target_os == "macos"@ {
        BackendKind::MacOsAccessibility
    } else if target_os == "android"@ {
        BackendKind::AndroidAccessibilityService
    } else if target_os == "ios"@ {
        BackendKind::IosAccessibilityClient
    } else if target_os == "linux"@ {
        BackendKind::LinuxAtSpi2
    } else {
        BackendKind::Unsupported
    }
}

/// The backend of the operating system the program was built for; the caller
/// passes that system's `target_os` name.
pub fn current_backend(target_os: &str) -> (r: BackendKind)
    ensures
        r == backend_for_os_spec(target_os@),
{
    if str_eq(target_os, "windows") {
        BackendKind::WindowsUia
    } else if str_eq(target_os, "macos") {
        BackendKind::MacOsAccessibility
    } else if str_eq(target_os, "android") {
        BackendKind::AndroidAccessibilityService
    } else if str_eq(target_os, "ios") {
        BackendKind::IosAccessibilityClient
    } else if str_eq(target_os, "linux") {
        BackendKind::LinuxAtSpi2
    } else {
        BackendKind::Unsupported
    }
}

/// The contract a native backend fulfils for the runtime.
pub trait AccessibilityBackend {
    type Error;

    fn name(&self) -> &'static str;

    fn run(&mut self, monitor_seconds: u64) -> Result<(), Self::Error>;
}

/// Only a backend that can act as the system screen reader is implemented natively.
pub proof fn implemented_backends_are_system_capable(kind: BackendKind)
    ensures
        kind == BackendKind::WindowsUia ==> kind.system_capable_spec(),
{
}

} // verus!
