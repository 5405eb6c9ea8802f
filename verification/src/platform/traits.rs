use vstd::prelude::*;
use crate::error::CaptureError;
use crate::frame_slot::SharedFrameSlot;
use crate::pixel_conversion::conversion_outcome;
use crate::pixel_conversion::NativeFrame;
use crate::pixel_conversion::PIXEL_FORMAT_32BGRA;
use crate::pixel_conversion::TARGET_FRAME_BYTES;
use crate::pixel_conversion::TARGET_HEIGHT;
use crate::pixel_conversion::TARGET_WIDTH;

verus! {

/// Size of a display in pixels.
#[derive(Debug, Clone, Copy, PartialEq, Eq, Structural)]
pub struct DisplayResolution {
    pub width: u32,
    pub height: u32,
}

/// What the operating system is asked to deliver once a session may start.
#[derive(Debug, Clone, Copy, PartialEq, Eq, Structural)]
pub struct StreamSettings {
    pub width: u32,
    pub height: u32,
    pub captures_audio: bool,
    pub pixel_format: u32,
}

/// What a capture stream delivers with a sample.
#[derive(Debug, Clone, Copy, PartialEq, Eq, Structural)]
pub enum StreamOutputType {
    Screen,
    Audio,
}

/// Operating systems the mirror knows about.
#[derive(Debug, Clone, Copy, PartialEq, Eq, Structural)]
pub enum Platform {
    MacOS,
    Windows,
    Linux,
}

/// The platform that an operating system's name stands for, where it is one
/// of the three known.
pub open spec fn platform_named(os_name: Seq<char>) -> Option<Platform> {
    if os_name == "macos"@ {
        Some(Platform::MacOS)
    } else if os_name == "windows"@ {
        Some(Platform::Windows)
    } else if os_name == "linux"@ {
        Some(Platform::Linux)
    } else {
        None
    }
}

impl Platform {
    /// The platform's name as it appears in messages.
    pub open spec fn name_text(self) -> Seq<char> {
        match self {
            Platform::MacOS => "MacOS"@,
            Platform::Windows => "Windows"@,
            Platform::Linux => "Linux"@,
        }
    }

    /// The platform's name as it appears in messages.
    pub fn name(&self) -> (name: &'static str)
        ensures
            name@ == self.name_text(),
    {
        match self {
            Platform::MacOS => "MacOS",
            Platform::Windows => "Windows",
            Platform::Linux => "Linux",
        }
    }

    /// The platform this program runs on, told from the operating system's
    /// name as the standard library spells it.
    pub fn current(os_name: &str) -> (platform: Option<Platform>)
        ensures
            platform == platform_named(os_name@),
    {
        let name = os_name.to_owned();
        if name == "macos".to_owned() {
            Some(Platform::MacOS)
        } else if name == "windows".to_owned() {
            Some(Platform::Windows)
        } else if name == "linux".to_owned() {
            Some(Platform::Linux)
        } else {
            None
        }
    }

    /// Whether screen capture is available on this platform.
    pub fn is_supported(&self) -> (supported: bool)
        ensures
            supported == (*self == Platform::MacOS),
    {
        match self {
            Platform::MacOS => true,
            Platform::Windows => false,
            Platform::Linux => false,
        }
    }
}

/// The displays that the operating system listed, in its order; `None`
/// where it refused to list any.
pub open spec fn listed(displays: Option<&[DisplayResolution]>) -> Option<Seq<DisplayResolution>> {
    match displays {
        Some(list) => Some(list@),
        None => None,
    }
}

/// The display that an adapter mirrors: on a supported platform the first
/// one listed.
pub open spec fn chosen_display(
    platform: Platform,
    displays: Option<Seq<DisplayResolution>>,
) -> Result<DisplayResolution, CaptureError> {
    if platform != Platform::MacOS {
        Err(CaptureError::UnsupportedPlatform(platform))
    } else {
        match displays {
            None => Err(CaptureError::PermissionDenied),
            Some(list) => if list.len() == 0 {
                Err(CaptureError::NoDisplayFound)
            } else {
                Ok(list[0])
            },
        }
    }
}

/// The stream to ask for when mirroring `display`: its full size, video
/// only, blue-first 32-bit pixels.
pub open spec fn settings_for(display: DisplayResolution) -> StreamSettings {
    StreamSettings {
        width: display.width,
        height: display.height,
        captures_audio: false,
        pixel_format: PIXEL_FORMAT_32BGRA,
    }
}

/// How an adapter answers a request to start capturing. A second session
/// beside a running one is refused.
pub open spec fn start_decision(
    platform: Platform,
    capturing: bool,
    displays: Option<Seq<DisplayResolution>>,
) -> Result<StreamSettings, CaptureError> {
    if platform != Platform::MacOS {
        Err(CaptureError::UnsupportedPlatform(platform))
    } else if capturing {
        Err(CaptureError::SessionAlreadyActive)
    } else {
        match chosen_display(platform, displays) {
            Ok(display) => Ok(settings_for(display)),
            Err(e) => Err(e),
        }
    }
}

/// An adapter never holds two sessions: while one is active, every start
/// is refused.
pub proof fn lemma_no_second_session(platform: Platform, displays: Option<Seq<DisplayResolution>>)
    ensures
        start_decision(platform, true, displays) is Err,
{
}

/// A platform without a backend refuses every start with the error that
/// names it, whatever the operating system listed.
pub proof fn lemma_unsupported_platform_never_starts(
    platform: Platform,
    capturing: bool,
    displays: Option<Seq<DisplayResolution>>,
)
    requires
        platform != Platform::MacOS,
    ensures
        start_decision(platform, capturing, displays) == Err::<StreamSettings, CaptureError>(
            CaptureError::UnsupportedPlatform(platform),
        ),
        chosen_display(platform, displays) == Err::<DisplayResolution, CaptureError>(
            CaptureError::UnsupportedPlatform(platform),
        ),
{
}

/// What a platform's converter makes of a native buffer.
pub open spec fn platform_conversion(platform: Platform, frame: NativeFrame) -> Result<
    Seq<u8>,
    CaptureError,
> {
    if platform != Platform::MacOS {
        Err(CaptureError::UnsupportedPlatform(platform))
    } else {
        conversion_outcome(frame, TARGET_WIDTH as int, TARGET_HEIGHT as int)
    }
}

/// The capture session of one platform. An adapter is idle or capturing;
/// it decides, and the caller carries its decisions out on the operating
/// system: it lists the displays before a start, opens the stream that a
/// successful start asks for, and calls `stop_capture` where that stream
/// cannot be opened or has been closed.
pub trait ScreenCapture {
    /// The platform this adapter serves.
    spec fn platform(&self) -> Platform;

    /// Whether a session is active.
    spec fn is_capturing(&self) -> bool;

    /// The slot into which the capture callback stores frames.
    spec fn frame_buffer(&self) -> SharedFrameSlot;

    /// The resolution of the display that would be mirrored.
    fn get_display_resolution(&self, displays: Option<&[DisplayResolution]>) -> (resolution:
        Result<DisplayResolution, CaptureError>)
        ensures
            resolution == chosen_display(self.platform(), listed(displays)),
    ;

    /// Starts a session on the first display listed and says which stream
    /// to open for it. A failed start changes nothing.
    fn start_capture(&mut self, displays: Option<&[DisplayResolution]>) -> (settings: Result<
        StreamSettings,
        CaptureError,
    >)
        ensures
            settings == start_decision(
                old(self).platform(),
                old(self).is_capturing(),
                listed(displays),
            ),
            final(self).platform() == old(self).platform(),
            final(self).is_capturing() == (old(self).is_capturing() || settings is Ok),
            final(self).frame_buffer() == old(self).frame_buffer(),
    ;

    /// The latest converted frame, if there is one. Never waits for the
    /// capture callback.
    fn get_latest_frame(&self) -> (frame: Option<Vec<u8>>)
        ensures
            frame matches Some(bytes) ==> bytes@.len() == TARGET_FRAME_BYTES,
            self.platform() != Platform::MacOS ==> frame is None,
    ;

    /// Ends the session, if one is active.
    fn stop_capture(&mut self)
        ensures
            !final(self).is_capturing(),
            final(self).platform() == old(self).platform(),
            final(self).frame_buffer() == old(self).frame_buffer(),
    ;

    /// A handle to the slot into which the capture callback stores frames.
    fn get_frame_buffer(&self) -> (slot: SharedFrameSlot)
        ensures
            slot == self.frame_buffer(),
            slot.frame_len() == TARGET_FRAME_BYTES,
    ;
}

/// Makes the adapter of one platform.
pub trait ScreenCaptureFactory {
    type Capture: ScreenCapture;

    /// An idle adapter.
    fn create() -> (capture: Self::Capture)
        ensures
            !capture.is_capturing(),
            capture.frame_buffer().frame_len() == TARGET_FRAME_BYTES,
    ;
}

/// Turns a platform's native buffers into RGBA frames.
pub trait PixelConverter: Send + Sync {
    /// The platform whose buffers this converter reads.
    spec fn platform(&self) -> Platform;

    /// The frame that `buffer` converts to; `None` where it is refused or
    /// the platform has no converter.
    fn convert_to_rgba(&self, buffer: &NativeFrame) -> (rgba: Option<Vec<u8>>)
        ensures
            match rgba {
                Some(bytes) => platform_conversion(self.platform(), *buffer) == Ok::<
                    Seq<u8>,
                    CaptureError,
                >(bytes@),
                None => platform_conversion(self.platform(), *buffer) is Err,
            },
    ;
}

} // verus!
