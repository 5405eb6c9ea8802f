//! Screen mirroring core: turns platform-native video buffers into tightly
//! packed RGBA frames and hands the latest one from the capture callback to
//! the render loop.

pub mod conversion_laws;
pub mod cross_platform_capture;
pub mod error;
pub mod frame_slot;
pub mod pixel_conversion;
pub mod platform;
pub mod platform_detector;
pub mod safe_mirror;
pub mod screen_capture;
