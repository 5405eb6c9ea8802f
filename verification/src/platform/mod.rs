//! Platform adapters behind one capture interface.

pub mod linux;
pub mod macos;
pub mod traits;
pub mod windows;

pub use traits::DisplayResolution;
pub use traits::PixelConverter;
pub use traits::Platform;
pub use traits::ScreenCapture;
pub use traits::ScreenCaptureFactory;
pub use traits::StreamOutputType;
pub use traits::StreamSettings;
