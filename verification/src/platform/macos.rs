use vstd::prelude::*;
use crate::error::CaptureError;
use crate::frame_slot::SharedFrameSlot;
use crate::pixel_conversion::conversion_outcome;
use crate::pixel_conversion::convert_sample_buffer_to_rgba;
use crate::pixel_conversion::NativeFrame;
use crate::pixel_conversion::PIXEL_FORMAT_32BGRA;
use crate::pixel_conversion::TARGET_FRAME_BYTES;
use crate::pixel_conversion::TARGET_HEIGHT;
use crate::pixel_conversion::TARGET_WIDTH;
use crate::platform::traits::DisplayResolution;
use crate::platform::traits::PixelConverter;
use crate::platform::traits::Platform;
use crate::platform::traits::ScreenCapture;
use crate::platform::traits::ScreenCaptureFactory;
use crate::platform::traits::StreamOutputType;
use crate::platform::traits::StreamSettings;

verus! {

/// The macOS capture session. It keeps the settings of the stream that is
/// open, and the resolution of the display that was last mirrored.
pub struct MacOSScreenCapture {
    latest_frame: SharedFrameSlot,
    stream: Option<StreamSettings>,
    display_resolution: Option<DisplayResolution>,
}

impl MacOSScreenCapture {
    #[verifier::type_invariant]
    spec fn slot_takes_target_frames(self) -> bool {
        self.latest_frame.frame_len() == TARGET_FRAME_BYTES
    }

    /// The settings of the open stream; `None` while idle.
    pub closed spec fn stream(&self) -> Option<StreamSettings> {
        self.stream
    }

    /// The resolution recorded by the last successful start.
    pub closed spec fn display_resolution(&self) -> Option<DisplayResolution> {
        self.display_resolution
    }

    /// An idle session that has seen no display yet.
    pub fn new() -> (capture: Self)
        ensures
            capture.stream() is None,
            capture.display_resolution() is None,
            !capture.is_capturing(),
            capture.frame_buffer().frame_len() == TARGET_FRAME_BYTES,
            capture.platform() == Platform::MacOS,
    {
        MacOSScreenCapture {
            latest_frame: SharedFrameSlot::new(TARGET_FRAME_BYTES),
            stream: None,
            display_resolution: None,
        }
    }

    /// The settings of the open stream; `None` while idle.
    pub fn stream_settings(&self) -> (settings: Option<StreamSettings>)
        ensures
            settings == self.stream(),
    {
        self.stream
    }

    /// The resolution recorded by the last successful start.
    pub fn mirrored_resolution(&self) -> (resolution: Option<DisplayResolution>)
        ensures
            resolution == self.display_resolution(),
    {
        self.display_resolution
    }
}

impl ScreenCapture for MacOSScreenCapture {
    open spec fn platform(&self) -> Platform {
        Platform::MacOS
    }

    closed spec fn is_capturing(&self) -> bool {
        self.stream is Some
    }

    closed spec fn frame_buffer(&self) -> SharedFrameSlot {
        self.latest_frame
    }

    fn get_display_resolution(&self, displays: Option<&[DisplayResolution]>) -> (resolution:
        Result<DisplayResolution, CaptureError>) {
        match displays {
            None => Err(CaptureError::PermissionDenied),
            Some(list) => {
                if list.len() == 0 {
                    Err(CaptureError::NoDisplayFound)
                } else {
                    Ok(list[0])
                }
            },
        }
    }

    fn start_capture(&mut self, displays: Option<&[DisplayResolution]>) -> (settings: Result<
        StreamSettings,
        CaptureError,
    >)
        ensures
            final(self).stream() == match settings {
                Ok(opened) => Some(opened),
                Err(_) => old(self).stream(),
            },
            final(self).display_resolution() == match settings {
                Ok(opened) => Some(
                    DisplayResolution { width: opened.width, height: opened.height },
                ),
                Err(_) => old(self).display_resolution(),
            },
    {
        proof {
            use_type_invariant(&*self);
        }
        if self.stream.is_some() {
            return Err(CaptureError::SessionAlreadyActive);
        }
        let display = match self.get_display_resolution(displays) {
            Ok(display) => display,
            Err(e) => {
                return Err(e);
            },
        };
        let settings = StreamSettings {
            width: display.width,
            height: display.height,
            captures_audio: false,
            pixel_format: PIXEL_FORMAT_32BGRA,
        };
        self.display_resolution = Some(display);
        self.stream = Some(settings);
        Ok(settings)
    }

    fn get_latest_frame(&self) -> (frame: Option<Vec<u8>>) {
        proof {
            use_type_invariant(self);
        }
        self.latest_frame.load()
    }

    fn stop_capture(&mut self)
        ensures
            final(self).stream() is None,
            final(self).display_resolution() == old(self).display_resolution(),
    {
        proof {
            use_type_invariant(&*self);
        }
        self.stream = None;
    }

    fn get_frame_buffer(&self) -> (slot: SharedFrameSlot) {
        proof {
            use_type_invariant(self);
        }
        self.latest_frame.share()
    }
}

/// Makes macOS adapters.
pub struct MacOSScreenCaptureFactory;

impl ScreenCaptureFactory for MacOSScreenCaptureFactory {
    type Capture = MacOSScreenCapture;

    fn create() -> (capture: Self::Capture)
        ensures
            capture.platform() == Platform::MacOS,
    {
        MacOSScreenCapture::new()
    }
}

/// Converts the blue-first buffers that macOS delivers.
pub struct MacOSPixelConverter;

impl PixelConverter for MacOSPixelConverter {
    open spec fn platform(&self) -> Platform {
        Platform::MacOS
    }

    fn convert_to_rgba(&self, buffer: &NativeFrame) -> (rgba: Option<Vec<u8>>) {
        convert_sample_buffer_to_rgba(buffer)
    }
}

/// Receives the samples of a macOS stream and publishes each screen frame
/// that converts.
pub struct MacOSScreenCaptureOutputHandler {
    frame_data: SharedFrameSlot,
    converter: MacOSPixelConverter,
}

impl MacOSScreenCaptureOutputHandler {
    /// The slot that frames are published to.
    pub closed spec fn frame_data(&self) -> SharedFrameSlot {
        self.frame_data
    }

    /// A handler that publishes to `frame_data`.
    pub fn new(frame_data: SharedFrameSlot) -> (handler: Self)
        ensures
            handler.frame_data() == frame_data,
    {
        MacOSScreenCaptureOutputHandler { frame_data, converter: MacOSPixelConverter }
    }

    /// Converts a screen sample and stores the frame. A sample that is not
    /// of the screen, or that does not convert, is dropped and leaves the
    /// slot as it was. Tells whether a frame was stored.
    pub fn did_output_sample_buffer(
        &self,
        sample_buffer: &NativeFrame,
        output_type: StreamOutputType,
    ) -> (stored: bool)
        ensures
            stored == (output_type == StreamOutputType::Screen && conversion_outcome(
                *sample_buffer,
                TARGET_WIDTH as int,
                TARGET_HEIGHT as int,
            ) is Ok && self.frame_data().frame_len() == TARGET_FRAME_BYTES),
    {
        match output_type {
            StreamOutputType::Screen => {
                match self.converter.convert_to_rgba(sample_buffer) {
                    Some(rgba_data) => self.frame_data.store(rgba_data),
                    None => false,
                }
            },
            StreamOutputType::Audio => false,
        }
    }
}

} // verus!
