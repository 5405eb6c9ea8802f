//! What the render loop decides: which bytes go to the texture, which window
//! sizes it takes, and how it goes on after a frame was drawn or was not.

use vstd::prelude::*;
use crate::error::CaptureError;
use crate::pixel_conversion::TARGET_FRAME_BYTES;
use crate::platform::traits::DisplayResolution;

verus! {

/// The shade of every byte of the fallback pattern: dark gray.
pub const FALLBACK_SHADE: u8 = 64;

/// The pattern shown while no frame has arrived: a frame of the target size
/// in one shade.
pub open spec fn test_pattern() -> Seq<u8> {
    Seq::new(TARGET_FRAME_BYTES as nat, |i: int| FALLBACK_SHADE)
}

/// The pattern shown while no frame has arrived.
pub fn create_test_pattern() -> (pattern: Vec<u8>)
    ensures
        pattern@ == test_pattern(),
{
    vec![FALLBACK_SHADE; TARGET_FRAME_BYTES]
}

/// The bytes to upload on a render tick: the latest frame, or the fallback
/// pattern where there is none.
pub fn frame_for_upload(latest: Option<Vec<u8>>) -> (texture_data: Vec<u8>)
    ensures
        texture_data@ == match latest {
            Some(frame) => frame@,
            None => test_pattern(),
        },
{
    match latest {
        Some(frame) => frame,
        None => create_test_pattern(),
    }
}

/// The resolution to size the texture with: the display's where it is
/// known, 1920 x 1080 otherwise.
pub fn texture_resolution(queried: Result<DisplayResolution, CaptureError>) -> (resolution:
    DisplayResolution)
    ensures
        resolution == match queried {
            Ok(display) => display,
            Err(_) => DisplayResolution { width: 1920, height: 1080 },
        },
{
    match queried {
        Ok(display) => display,
        Err(_) => DisplayResolution { width: 1920, height: 1080 },
    }
}

/// Whether the surface is reconfigured for a new window size: only where
/// the window has any area.
pub fn accepts_resize(width: u32, height: u32) -> (accepted: bool)
    ensures
        accepted == (width > 0 && height > 0),
{
    width > 0 && height > 0
}

/// How an attempt to draw a frame ended.
#[derive(Debug, Clone, Copy, PartialEq, Eq, Structural)]
pub enum RenderOutcome {
    Presented,
    SurfaceLost,
    OutOfMemory,
    Failed,
}

/// What the event loop does after an attempt to draw.
#[derive(Debug, Clone, Copy, PartialEq, Eq, Structural)]
pub enum RenderReaction {
    /// Go on with the next frame.
    Continue,
    /// Configure the surface again at the current size, then go on.
    Reconfigure,
    /// Leave the event loop.
    Exit,
    /// Report the failure, then go on.
    Report,
}

/// A lost surface is configured again, exhausted memory ends the program,
/// and any other failure is reported and survived.
pub fn after_render(outcome: RenderOutcome) -> (reaction: RenderReaction)
    ensures
        reaction == match outcome {
            RenderOutcome::Presented => RenderReaction::Continue,
            RenderOutcome::SurfaceLost => RenderReaction::Reconfigure,
            RenderOutcome::OutOfMemory => RenderReaction::Exit,
            RenderOutcome::Failed => RenderReaction::Report,
        },
{
    match outcome {
        RenderOutcome::Presented => RenderReaction::Continue,
        RenderOutcome::SurfaceLost => RenderReaction::Reconfigure,
        RenderOutcome::OutOfMemory => RenderReaction::Exit,
        RenderOutcome::Failed => RenderReaction::Report,
    }
}

} // verus!
