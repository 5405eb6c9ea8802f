use vstd::prelude::*;
use crate::error::CaptureError;
use crate::frame_slot::SharedFrameSlot;
use crate::pixel_conversion::NativeFrame;
use crate::pixel_conversion::TARGET_FRAME_BYTES;
use crate::platform::linux::LinuxPixelConverter;
use crate::platform::linux::LinuxScreenCapture;
use crate::platform::linux::LinuxScreenCaptureFactory;
use crate::platform::macos::MacOSPixelConverter;
use crate::platform::macos::MacOSScreenCapture;
use crate::platform::macos::MacOSScreenCaptureFactory;
use crate::platform::traits::chosen_display;
use crate::platform::traits::listed;
use crate::platform::traits::start_decision;
use crate::platform::traits::DisplayResolution;
use crate::platform::traits::PixelConverter;
use crate::platform::traits::Platform;
use crate::platform::traits::ScreenCapture;
use crate::platform::traits::ScreenCaptureFactory;
use crate::platform::traits::StreamSettings;
use crate::platform::windows::WindowsPixelConverter;
use crate::platform::windows::WindowsScreenCapture;
use crate::platform::windows::WindowsScreenCaptureFactory;

verus! {

/// The adapter of one of the known platforms.
pub enum PlatformCapture {
    MacOS(MacOSScreenCapture),
    Windows(WindowsScreenCapture),
    Linux(LinuxScreenCapture),
}

impl ScreenCapture for PlatformCapture {
    open spec fn platform(&self) -> Platform {
        match self {
            PlatformCapture::MacOS(capture) => capture.platform(),
            PlatformCapture::Windows(capture) => capture.platform(),
            PlatformCapture::Linux(capture) => capture.platform(),
        }
    }

    open spec fn is_capturing(&self) -> bool {
        match self {
            PlatformCapture::MacOS(capture) => capture.is_capturing(),
            PlatformCapture::Windows(capture) => capture.is_capturing(),
            PlatformCapture::Linux(capture) => capture.is_capturing(),
        }
    }

    open spec fn frame_buffer(&self) -> SharedFrameSlot {
        match self {
            PlatformCapture::MacOS(capture) => capture.frame_buffer(),
            PlatformCapture::Windows(capture) => capture.frame_buffer(),
            PlatformCapture::Linux(capture) => capture.frame_buffer(),
        }
    }

    fn get_display_resolution(&self, displays: Option<&[DisplayResolution]>) -> (resolution:
        Result<DisplayResolution, CaptureError>) {
        match self {
            PlatformCapture::MacOS(capture) => capture.get_display_resolution(displays),
            PlatformCapture::Windows(capture) => capture.get_display_resolution(displays),
            PlatformCapture::Linux(capture) => capture.get_display_resolution(displays),
        }
    }

    fn start_capture(&mut self, displays: Option<&[DisplayResolution]>) -> (settings: Result<
        StreamSettings,
        CaptureError,
    >) {
        match self {
            PlatformCapture::MacOS(capture) => capture.start_capture(displays),
            PlatformCapture::Windows(capture) => capture.start_capture(displays),
            PlatformCapture::Linux(capture) => capture.start_capture(displays),
        }
    }

    fn get_latest_frame(&self) -> (frame: Option<Vec<u8>>) {
        match self {
            PlatformCapture::MacOS(capture) => capture.get_latest_frame(),
            PlatformCapture::Windows(capture) => capture.get_latest_frame(),
            PlatformCapture::Linux(capture) => capture.get_latest_frame(),
        }
    }

    fn stop_capture(&mut self) {
        match self {
            PlatformCapture::MacOS(capture) => capture.stop_capture(),
            PlatformCapture::Windows(capture) => capture.stop_capture(),
            PlatformCapture::Linux(capture) => capture.stop_capture(),
        }
    }

    fn get_frame_buffer(&self) -> (slot: SharedFrameSlot) {
        match self {
            PlatformCapture::MacOS(capture) => capture.get_frame_buffer(),
            PlatformCapture::Windows(capture) => capture.get_frame_buffer(),
            PlatformCapture::Linux(capture) => capture.get_frame_buffer(),
        }
    }
}

/// The pixel converter of one of the known platforms.
pub enum PlatformConverter {
    MacOS(MacOSPixelConverter),
    Windows(WindowsPixelConverter),
    Linux(LinuxPixelConverter),
}

impl PixelConverter for PlatformConverter {
    open spec fn platform(&self) -> Platform {
        match self {
            PlatformConverter::MacOS(converter) => converter.platform(),
            PlatformConverter::Windows(converter) => converter.platform(),
            PlatformConverter::Linux(converter) => converter.platform(),
        }
    }

    fn convert_to_rgba(&self, buffer: &NativeFrame) -> (rgba: Option<Vec<u8>>) {
        match self {
            PlatformConverter::MacOS(converter) => converter.convert_to_rgba(buffer),
            PlatformConverter::Windows(converter) => converter.convert_to_rgba(buffer),
            PlatformConverter::Linux(converter) => converter.convert_to_rgba(buffer),
        }
    }
}

/// Screen capture on whichever platform was chosen at start-up: the
/// platform's adapter and converter behind one interface.
pub struct CrossPlatformScreenCapture {
    capture: PlatformCapture,
    converter: PlatformConverter,
    platform: Platform,
}

impl CrossPlatformScreenCapture {
    /// The adapter and the converter both serve the platform that was
    /// chosen. `new` establishes this and every method keeps it.
    pub closed spec fn wf(&self) -> bool {
        &&& self.capture.platform() == self.platform
        &&& self.converter.platform() == self.platform
    }

    /// The platform whose adapter does the capturing.
    pub closed spec fn chosen_platform(&self) -> Platform {
        self.capture.platform()
    }

    /// Whether a session is active.
    pub closed spec fn is_capturing(&self) -> bool {
        self.capture.is_capturing()
    }

    /// The slot into which the capture callback stores frames.
    pub closed spec fn frame_buffer(&self) -> SharedFrameSlot {
        self.capture.frame_buffer()
    }

    /// The idle manager of a supported platform; an unsupported one is
    /// refused.
    pub fn new(platform: Platform) -> (manager: Result<Self, CaptureError>)
        ensures
            match manager {
                Ok(created) => platform == Platform::MacOS && created.wf()
                    && created.chosen_platform() == platform && !created.is_capturing()
                    && created.frame_buffer().frame_len() == TARGET_FRAME_BYTES,
                Err(e) => platform != Platform::MacOS && e == CaptureError::UnsupportedPlatform(
                    platform,
                ),
            },
    {
        if !platform.is_supported() {
            return Err(CaptureError::UnsupportedPlatform(platform));
        }
        let (capture, converter) = match platform {
            Platform::MacOS => (
                PlatformCapture::MacOS(MacOSScreenCaptureFactory::create()),
                PlatformConverter::MacOS(MacOSPixelConverter),
            ),
            Platform::Windows => (
                PlatformCapture::Windows(WindowsScreenCaptureFactory::create()),
                PlatformConverter::Windows(WindowsPixelConverter),
            ),
            Platform::Linux => (
                PlatformCapture::Linux(LinuxScreenCaptureFactory::create()),
                PlatformConverter::Linux(LinuxPixelConverter),
            ),
        };
        Ok(CrossPlatformScreenCapture { capture, converter, platform })
    }

    /// The resolution of the display that would be mirrored: the first one
    /// that the operating system listed.
    pub fn get_display_resolution(&self, displays: Option<&[DisplayResolution]>) -> (resolution:
        Result<DisplayResolution, CaptureError>)
        ensures
            resolution == chosen_display(self.chosen_platform(), listed(displays)),
    {
        self.capture.get_display_resolution(displays)
    }

    /// Starts a session on the first display listed and says which stream
    /// to open for it. A start while a session is active is refused; a
    /// refused start changes nothing.
    pub fn start_capture(&mut self, displays: Option<&[DisplayResolution]>) -> (settings: Result<
        StreamSettings,
        CaptureError,
    >)
        ensures
            settings == start_decision(
                old(self).chosen_platform(),
                old(self).is_capturing(),
                listed(displays),
            ),
            final(self).chosen_platform() == old(self).chosen_platform(),
            final(self).is_capturing() == (old(self).is_capturing() || settings is Ok),
            final(self).frame_buffer() == old(self).frame_buffer(),
            final(self).wf() == old(self).wf(),
    {
        self.capture.start_capture(displays)
    }

    /// The latest converted frame, if there is one.
    pub fn get_latest_frame(&self) -> (frame: Option<Vec<u8>>)
        ensures
            frame matches Some(bytes) ==> bytes@.len() == TARGET_FRAME_BYTES,
            self.chosen_platform() != Platform::MacOS ==> frame is None,
    {
        self.capture.get_latest_frame()
    }

    /// Ends the session, if one is active.
    pub fn stop_capture(&mut self)
        ensures
            !final(self).is_capturing(),
            final(self).chosen_platform() == old(self).chosen_platform(),
            final(self).frame_buffer() == old(self).frame_buffer(),
            final(self).wf() == old(self).wf(),
    {
        self.capture.stop_capture()
    }

    /// The platform that was chosen.
    pub fn platform(&self) -> (platform: Platform)
        requires
            self.wf(),
        ensures
            platform == self.chosen_platform(),
    {
        self.platform
    }

    /// A handle to the slot into which the capture callback stores frames.
    pub fn get_frame_buffer(&self) -> (slot: SharedFrameSlot)
        ensures
            slot == self.frame_buffer(),
            slot.frame_len() == TARGET_FRAME_BYTES,
    {
        self.capture.get_frame_buffer()
    }

    /// The platform's pixel converter.
    pub fn converter(&self) -> (converter: &PlatformConverter)
        requires
            self.wf(),
        ensures
            converter.platform() == self.chosen_platform(),
    {
        &self.converter
    }
}

} // verus!
