use vstd::prelude::*;
use crate::platform::traits::Platform;

verus! {

/// What is missing for Windows and what it would take to add it.
pub const WINDOWS_SUPPORT_HELP: &'static str =
    "Windows support is not implemented yet.\nTo add Windows support:\n1. Implement Windows-specific screen capture using DXGI or GDI+\n2. Add pixel format conversion for Windows capture formats\n3. Update platform::windows module with real implementation";

/// What is missing for Linux and what it would take to add it.
pub const LINUX_SUPPORT_HELP: &'static str =
    "Linux support is not implemented yet.\nTo add Linux support:\n1. Implement X11/Wayland screen capture using xrandr or wlroots\n2. Add pixel format conversion for Linux capture formats\n3. Update platform::linux module with real implementation";

/// What mirroring needs on macOS.
pub const MACOS_REQUIREMENTS: &'static str =
    "macOS Requirements:\n- macOS 11.0+ (for ScreenCaptureKit)\n- Screen Recording permission in System Preferences\n- Metal-capable GPU (all modern Macs)";

/// What mirroring will need on Windows.
pub const WINDOWS_REQUIREMENTS: &'static str =
    "Windows Requirements (when implemented):\n- Windows 10 1903+ (for DXGI Desktop Duplication)\n- DirectX 11+ compatible GPU\n- Desktop Window Manager enabled";

/// What mirroring will need on Linux.
pub const LINUX_REQUIREMENTS: &'static str =
    "Linux Requirements (when implemented):\n- X11 or Wayland display server\n- xrandr (X11) or wlroots protocols (Wayland)\n- OpenGL 3.3+ or Vulkan capable GPU";

/// The text that tells a user why `platform` cannot mirror yet.
pub open spec fn support_help(platform: Platform) -> Seq<char> {
    match platform {
        Platform::MacOS => Seq::empty(),
        Platform::Windows => WINDOWS_SUPPORT_HELP@,
        Platform::Linux => LINUX_SUPPORT_HELP@,
    }
}

/// The requirements of `platform`, as text.
pub open spec fn requirements(platform: Platform) -> Seq<char> {
    match platform {
        Platform::MacOS => MACOS_REQUIREMENTS@,
        Platform::Windows => WINDOWS_REQUIREMENTS@,
        Platform::Linux => LINUX_REQUIREMENTS@,
    }
}

/// Tells users what their platform can do and what it needs.
pub struct PlatformDetector;

impl PlatformDetector {
    /// Passes a supported platform through and answers an unsupported one
    /// with the steps that would add it.
    pub fn check_support(platform: Platform) -> (result: Result<Platform, String>)
        ensures
            match result {
                Ok(supported) => platform == Platform::MacOS && supported == platform,
                Err(help) => platform != Platform::MacOS && help@ == support_help(platform),
            },
    {
        match platform {
            Platform::MacOS => Ok(platform),
            Platform::Windows => Err(WINDOWS_SUPPORT_HELP.to_owned()),
            Platform::Linux => Err(LINUX_SUPPORT_HELP.to_owned()),
        }
    }

    /// What `platform` needs installed and enabled.
    pub fn get_requirements(platform: Platform) -> (text: &'static str)
        ensures
            text@ == requirements(platform),
    {
        match platform {
            Platform::MacOS => MACOS_REQUIREMENTS,
            Platform::Windows => WINDOWS_REQUIREMENTS,
            Platform::Linux => LINUX_REQUIREMENTS,
        }
    }
}

} // verus!
