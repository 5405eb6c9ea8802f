use vstd::prelude::*;
use crate::error::CaptureError;
use crate::frame_slot::SharedFrameSlot;
use crate::pixel_conversion::NativeFrame;
use crate::pixel_conversion::TARGET_FRAME_BYTES;
use crate::platform::traits::DisplayResolution;
use crate::platform::traits::PixelConverter;
use crate::platform::traits::Platform;
use crate::platform::traits::ScreenCapture;
use crate::platform::traits::ScreenCaptureFactory;
use crate::platform::traits::StreamSettings;

verus! {

/// Linux has no capture backend: every start is refused and no frame ever
/// arrives.
pub struct LinuxScreenCapture {
    latest_frame: SharedFrameSlot,
}

impl LinuxScreenCapture {
    #[verifier::type_invariant]
    spec fn slot_takes_target_frames(self) -> bool {
        self.latest_frame.frame_len() == TARGET_FRAME_BYTES
    }

    pub fn new() -> (capture: Self)
        ensures
            !capture.is_capturing(),
            capture.frame_buffer().frame_len() == TARGET_FRAME_BYTES,
            capture.platform() == Platform::Linux,
    {
        LinuxScreenCapture { latest_frame: SharedFrameSlot::new(TARGET_FRAME_BYTES) }
    }
}

impl ScreenCapture for LinuxScreenCapture {
    open spec fn platform(&self) -> Platform {
        Platform::Linux
    }

    open spec fn is_capturing(&self) -> bool {
        false
    }

    closed spec fn frame_buffer(&self) -> SharedFrameSlot {
        self.latest_frame
    }

    fn get_display_resolution(&self, displays: Option<&[DisplayResolution]>) -> (resolution:
        Result<DisplayResolution, CaptureError>) {
        Err(CaptureError::UnsupportedPlatform(Platform::Linux))
    }

    fn start_capture(&mut self, displays: Option<&[DisplayResolution]>) -> (settings: Result<
        StreamSettings,
        CaptureError,
    >) {
        Err(CaptureError::UnsupportedPlatform(Platform::Linux))
    }

    fn get_latest_frame(&self) -> (frame: Option<Vec<u8>>) {
        None
    }

    fn stop_capture(&mut self) {
    }

    fn get_frame_buffer(&self) -> (slot: SharedFrameSlot) {
        proof {
            use_type_invariant(self);
        }
        self.latest_frame.share()
    }
}

/// Makes Linux adapters.
pub struct LinuxScreenCaptureFactory;

impl ScreenCaptureFactory for LinuxScreenCaptureFactory {
    type Capture = LinuxScreenCapture;

    fn create() -> (capture: Self::Capture)
        ensures
            capture.platform() == Platform::Linux,
    {
        LinuxScreenCapture::new()
    }
}

/// Linux has no pixel converter: every buffer is refused.
pub struct LinuxPixelConverter;

impl PixelConverter for LinuxPixelConverter {
    open spec fn platform(&self) -> Platform {
        Platform::Linux
    }

    fn convert_to_rgba(&self, buffer: &NativeFrame) -> (rgba: Option<Vec<u8>>) {
        None
    }
}

} // verus!
