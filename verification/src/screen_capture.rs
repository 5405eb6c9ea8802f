use vstd::prelude::*;
use crate::error::CaptureError;
use crate::frame_slot::SharedFrameSlot;
use crate::pixel_conversion::conversion_outcome;
use crate::pixel_conversion::convert_sample_buffer_to_rgba;
use crate::pixel_conversion::NativeFrame;
use crate::pixel_conversion::PIXEL_FORMAT_32BGRA;
use crate::pixel_conversion::TARGET_FRAME_BYTES;
use crate::pixel_conversion::TARGET_HEIGHT;
use crate::pixel_conversion::TARGET_WIDTH;
use crate::platform::traits::listed;
use crate::platform::traits::DisplayResolution;
use crate::platform::traits::StreamOutputType;
use crate::platform::traits::StreamSettings;

verus! {

/// The stream that the fixed-size manager asks for: 1920 x 1080, video
/// only, blue-first 32-bit pixels.
pub open spec fn fixed_settings() -> StreamSettings {
    StreamSettings {
        width: 1920,
        height: 1080,
        captures_audio: false,
        pixel_format: PIXEL_FORMAT_32BGRA,
    }
}

/// How the fixed-size manager answers a request to start capturing.
pub open spec fn fixed_start_decision(
    capturing: bool,
    displays: Option<Seq<DisplayResolution>>,
) -> Result<StreamSettings, CaptureError> {
    if capturing {
        Err(CaptureError::SessionAlreadyActive)
    } else {
        match displays {
            None => Err(CaptureError::PermissionDenied),
            Some(list) => if list.len() == 0 {
                Err(CaptureError::NoDisplayFound)
            } else {
                Ok(fixed_settings())
            },
        }
    }
}

/// A capture session that always asks for a 1920 x 1080 stream, whatever
/// the display's own size.
pub struct ScreenCaptureManager {
    pub latest_frame: SharedFrameSlot,
    stream: Option<StreamSettings>,
}

impl ScreenCaptureManager {
    /// Whether a session is active.
    pub closed spec fn is_capturing(&self) -> bool {
        self.stream is Some
    }

    /// The slot that `latest_frame` names.
    pub closed spec fn slot(&self) -> SharedFrameSlot {
        self.latest_frame
    }

    /// An idle manager with an empty slot for converted frames.
    pub fn new() -> (manager: Self)
        ensures
            !manager.is_capturing(),
            manager.slot().frame_len() == TARGET_FRAME_BYTES,
    {
        ScreenCaptureManager { latest_frame: SharedFrameSlot::new(TARGET_FRAME_BYTES), stream: None }
    }

    /// Whether a session is active.
    pub fn has_stream(&self) -> (active: bool)
        ensures
            active == self.is_capturing(),
    {
        self.stream.is_some()
    }

    /// Starts a session where the operating system listed a display, and
    /// says which stream to open for it. A start while a session is active
    /// is refused; a refused start changes nothing.
    pub fn start_capture(&mut self, displays: Option<&[DisplayResolution]>) -> (settings: Result<
        StreamSettings,
        CaptureError,
    >)
        ensures
            settings == fixed_start_decision(old(self).is_capturing(), listed(displays)),
            final(self).is_capturing() == (old(self).is_capturing() || settings is Ok),
            final(self).slot() == old(self).slot(),
    {
        if self.stream.is_some() {
            return Err(CaptureError::SessionAlreadyActive);
        }
        match displays {
            None => Err(CaptureError::PermissionDenied),
            Some(list) => {
                if list.len() == 0 {
                    Err(CaptureError::NoDisplayFound)
                } else {
                    let settings = StreamSettings {
                        width: 1920,
                        height: 1080,
                        captures_audio: false,
                        pixel_format: PIXEL_FORMAT_32BGRA,
                    };
                    self.stream = Some(settings);
                    Ok(settings)
                }
            },
        }
    }

    /// The latest converted frame, if there is one.
    pub fn get_latest_frame(&self) -> (frame: Option<Vec<u8>>)
        ensures
            frame matches Some(bytes) ==> bytes@.len() == self.slot().frame_len(),
    {
        self.latest_frame.load()
    }

    /// Ends the session, if one is active.
    pub fn stop_capture(&mut self)
        ensures
            !final(self).is_capturing(),
            final(self).slot() == old(self).slot(),
    {
        self.stream = None;
    }
}

/// Receives the samples of a stream and publishes each screen frame that
/// converts.
pub struct ScreenCaptureOutputHandler {
    frame_data: SharedFrameSlot,
}

impl ScreenCaptureOutputHandler {
    /// The slot that frames are published to.
    pub closed spec fn frame_data(&self) -> SharedFrameSlot {
        self.frame_data
    }

    /// A handler that publishes to `frame_data`.
    pub fn new(frame_data: SharedFrameSlot) -> (handler: Self)
        ensures
            handler.frame_data() == frame_data,
    {
        ScreenCaptureOutputHandler { frame_data }
    }

    /// Converts a screen sample and stores the frame. A sample that is not
    /// of the screen, or that does not convert, is dropped and leaves the
    /// slot as it was. Tells whether a frame was stored.
    pub fn did_output_sample_buffer(
        &self,
        sample_buffer: &NativeFrame,
        output_type: StreamOutputType,
    ) -> (stored: bool)
        ensures
            stored == (output_type == StreamOutputType::Screen && conversion_outcome(
                *sample_buffer,
                TARGET_WIDTH as int,
                TARGET_HEIGHT as int,
            ) is Ok && self.frame_data().frame_len() == TARGET_FRAME_BYTES),
    {
        match output_type {
            StreamOutputType::Screen => {
                match convert_sample_buffer_to_rgba(sample_buffer) {
                    Some(rgba_data) => self.frame_data.store(rgba_data),
                    None => false,
                }
            },
            StreamOutputType::Audio => false,
        }
    }
}

} // verus!
