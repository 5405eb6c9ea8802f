use cloak_share::cross_platform_capture::CrossPlatformScreenCapture;
use cloak_share::error::CaptureError;
use cloak_share::frame_slot::FrameSlot;
use cloak_share::frame_slot::SharedFrameSlot;
use cloak_share::pixel_conversion::NativeFrame;
use cloak_share::pixel_conversion::PIXEL_FORMAT_32BGRA;
use cloak_share::pixel_conversion::TARGET_FRAME_BYTES;
use cloak_share::platform::linux::LinuxPixelConverter;
use cloak_share::platform::linux::LinuxScreenCapture;
use cloak_share::platform::linux::LinuxScreenCaptureFactory;
use cloak_share::platform::macos::MacOSPixelConverter;
use cloak_share::platform::macos::MacOSScreenCapture;
use cloak_share::platform::macos::MacOSScreenCaptureFactory;
use cloak_share::platform::macos::MacOSScreenCaptureOutputHandler;
use cloak_share::platform::windows::WindowsPixelConverter;
use cloak_share::platform::windows::WindowsScreenCapture;
use cloak_share::platform::windows::WindowsScreenCaptureFactory;
use cloak_share::platform::DisplayResolution;
use cloak_share::platform::PixelConverter;
use cloak_share::platform::Platform;
use cloak_share::platform::ScreenCapture;
use cloak_share::platform::ScreenCaptureFactory;
use cloak_share::platform::StreamOutputType;
use cloak_share::platform::StreamSettings;
use cloak_share::platform_detector::PlatformDetector;
use cloak_share::safe_mirror::accepts_resize;
use cloak_share::safe_mirror::after_render;
use cloak_share::safe_mirror::create_test_pattern;
use cloak_share::safe_mirror::frame_for_upload;
use cloak_share::safe_mirror::texture_resolution;
use cloak_share::safe_mirror::RenderOutcome;
use cloak_share::safe_mirror::RenderReaction;
use cloak_share::screen_capture::ScreenCaptureManager;
use cloak_share::screen_capture::ScreenCaptureOutputHandler;

const RETINA: DisplayResolution = DisplayResolution { width: 2560, height: 1600 };
const EXTERNAL: DisplayResolution = DisplayResolution { width: 3840, height: 2160 };

fn one_pixel_frame<'a>(data: &'a [u8], pixel_format: u32) -> NativeFrame<'a> {
    NativeFrame { width: 1, height: 1, bytes_per_row: 4, pixel_format, data: Some(data) }
}

#[test]
fn platform_is_told_from_the_operating_system_name() {
    assert_eq!(Platform::current("macos"), Some(Platform::MacOS));
    assert_eq!(Platform::current("windows"), Some(Platform::Windows));
    assert_eq!(Platform::current("linux"), Some(Platform::Linux));
    assert_eq!(Platform::current("freebsd"), None);
    assert_eq!(Platform::current("MacOS"), None);
    assert_eq!(Platform::current(""), None);
}

#[test]
fn only_macos_is_supported() {
    assert!(Platform::MacOS.is_supported());
    assert!(!Platform::Windows.is_supported());
    assert!(!Platform::Linux.is_supported());
}

#[test]
fn platform_names_read_as_declared() {
    assert_eq!(Platform::MacOS.name(), "MacOS");
    assert_eq!(Platform::Windows.name(), "Windows");
    assert_eq!(Platform::Linux.name(), "Linux");
}

#[test]
fn every_error_has_its_message() {
    assert_eq!(
        CaptureError::UnsupportedPlatform(Platform::Linux).message(),
        "Platform Linux is not yet supported"
    );
    assert_eq!(
        CaptureError::UnsupportedPlatform(Platform::Windows).message(),
        "Platform Windows is not yet supported"
    );
    assert_eq!(
        CaptureError::UnsupportedPixelFormat(875704438).message(),
        "Unsupported pixel format: 875704438"
    );
    assert_eq!(CaptureError::UnsupportedPixelFormat(10).message(), "Unsupported pixel format: 10");
    assert_eq!(CaptureError::BufferLockFailure.message(), "Failed to lock the pixel buffer");
    assert_eq!(CaptureError::NullBaseAddress.message(), "Pixel buffer base address is null");
    assert_eq!(
        CaptureError::StrideTooSmall.message(),
        "Pixel buffer rows are shorter than their pixels"
    );
    assert_eq!(CaptureError::NoDisplayFound.message(), "No displays found");
    assert_eq!(CaptureError::PermissionDenied.message(), "Screen Recording permission denied");
    assert_eq!(CaptureError::SessionAlreadyActive.message(), "Screen capture is already running");
}

#[test]
fn manager_exists_only_for_a_supported_platform() {
    assert!(CrossPlatformScreenCapture::new(Platform::MacOS).is_ok());
    assert_eq!(
        CrossPlatformScreenCapture::new(Platform::Linux).err(),
        Some(CaptureError::UnsupportedPlatform(Platform::Linux))
    );
    assert_eq!(
        CrossPlatformScreenCapture::new(Platform::Windows).err(),
        Some(CaptureError::UnsupportedPlatform(Platform::Windows))
    );
}

#[test]
fn manager_without_a_session_has_no_frame() {
    let manager = CrossPlatformScreenCapture::new(Platform::MacOS).ok().unwrap();
    assert_eq!(manager.get_latest_frame(), None);
    assert_eq!(manager.platform(), Platform::MacOS);
}

#[test]
fn manager_starts_on_the_first_display_listed() {
    let mut manager = CrossPlatformScreenCapture::new(Platform::MacOS).ok().unwrap();
    let displays = [RETINA, EXTERNAL];
    assert_eq!(manager.get_display_resolution(Some(&displays)), Ok(RETINA));
    assert_eq!(
        manager.start_capture(Some(&displays)),
        Ok(StreamSettings {
            width: 2560,
            height: 1600,
            captures_audio: false,
            pixel_format: PIXEL_FORMAT_32BGRA,
        })
    );
}

#[test]
fn second_start_is_refused_until_the_session_stops() {
    let mut manager = CrossPlatformScreenCapture::new(Platform::MacOS).ok().unwrap();
    let displays = [EXTERNAL];
    assert!(manager.start_capture(Some(&displays)).is_ok());
    assert_eq!(manager.start_capture(Some(&displays)), Err(CaptureError::SessionAlreadyActive));
    assert_eq!(manager.start_capture(None), Err(CaptureError::SessionAlreadyActive));
    manager.stop_capture();
    assert!(manager.start_capture(Some(&displays)).is_ok());
}

#[test]
fn failed_start_leaves_the_manager_idle_and_usable() {
    let mut manager = CrossPlatformScreenCapture::new(Platform::MacOS).ok().unwrap();
    assert_eq!(manager.start_capture(None), Err(CaptureError::PermissionDenied));
    assert_eq!(manager.start_capture(Some(&[])), Err(CaptureError::NoDisplayFound));
    assert_eq!(manager.get_display_resolution(None), Err(CaptureError::PermissionDenied));
    assert_eq!(manager.get_display_resolution(Some(&[])), Err(CaptureError::NoDisplayFound));
    manager.stop_capture();
    manager.stop_capture();
    assert_eq!(manager.get_latest_frame(), None);
    assert!(manager.start_capture(Some(&[RETINA])).is_ok());
}

#[test]
fn manager_publishes_what_its_slot_receives() {
    let manager = CrossPlatformScreenCapture::new(Platform::MacOS).ok().unwrap();
    let slot = manager.get_frame_buffer();
    assert_eq!(slot.frame_bytes(), TARGET_FRAME_BYTES);
    assert!(slot.store(vec![7u8; TARGET_FRAME_BYTES]));
    assert_eq!(manager.get_latest_frame(), Some(vec![7u8; TARGET_FRAME_BYTES]));
}

#[test]
fn manager_converts_with_its_platform_converter() {
    let manager = CrossPlatformScreenCapture::new(Platform::MacOS).ok().unwrap();
    let data = [10u8, 20, 30, 255];
    let rgba = manager.converter().convert_to_rgba(&one_pixel_frame(&data, PIXEL_FORMAT_32BGRA));
    let rgba = rgba.unwrap();
    assert_eq!(rgba.len(), TARGET_FRAME_BYTES);
    assert_eq!(&rgba[0..4], &[30, 20, 10, 255]);
    assert_eq!(manager.converter().convert_to_rgba(&one_pixel_frame(&data, 875704438)), None);
}

#[test]
fn macos_adapter_records_what_it_opened() {
    let mut capture = MacOSScreenCaptureFactory::create();
    assert_eq!(capture.stream_settings(), None);
    assert_eq!(capture.mirrored_resolution(), None);
    let opened = capture.start_capture(Some(&[EXTERNAL, RETINA])).unwrap();
    assert_eq!(opened.width, 3840);
    assert_eq!(opened.height, 2160);
    assert_eq!(capture.stream_settings(), Some(opened));
    assert_eq!(capture.mirrored_resolution(), Some(EXTERNAL));
    capture.stop_capture();
    assert_eq!(capture.stream_settings(), None);
    assert_eq!(capture.mirrored_resolution(), Some(EXTERNAL));
    assert_eq!(MacOSScreenCapture::new().get_latest_frame(), None);
}

#[test]
fn platforms_without_a_backend_refuse_every_start() {
    let mut linux = LinuxScreenCaptureFactory::create();
    let mut windows = WindowsScreenCaptureFactory::create();
    let displays = [RETINA];
    assert_eq!(
        linux.start_capture(Some(&displays)),
        Err(CaptureError::UnsupportedPlatform(Platform::Linux))
    );
    assert_eq!(
        windows.start_capture(Some(&displays)),
        Err(CaptureError::UnsupportedPlatform(Platform::Windows))
    );
    assert_eq!(
        linux.get_display_resolution(Some(&displays)),
        Err(CaptureError::UnsupportedPlatform(Platform::Linux))
    );
    assert_eq!(
        windows.get_display_resolution(None),
        Err(CaptureError::UnsupportedPlatform(Platform::Windows))
    );
    linux.stop_capture();
    windows.stop_capture();
    assert_eq!(linux.get_latest_frame(), None);
    assert_eq!(windows.get_latest_frame(), None);
    assert_eq!(LinuxScreenCapture::new().get_frame_buffer().load(), None);
    assert_eq!(WindowsScreenCapture::new().get_frame_buffer().load(), None);
}

#[test]
fn platforms_without_a_converter_refuse_every_buffer() {
    let data = [10u8, 20, 30, 255];
    let native = one_pixel_frame(&data, PIXEL_FORMAT_32BGRA);
    assert_eq!(LinuxPixelConverter.convert_to_rgba(&native), None);
    assert_eq!(WindowsPixelConverter.convert_to_rgba(&native), None);
    assert!(MacOSPixelConverter.convert_to_rgba(&native).is_some());
}

#[test]
fn fixed_size_manager_always_asks_for_1920_by_1080() {
    let mut manager = ScreenCaptureManager::new();
    assert_eq!(
        manager.start_capture(Some(&[RETINA])),
        Ok(StreamSettings {
            width: 1920,
            height: 1080,
            captures_audio: false,
            pixel_format: 1111970369,
        })
    );
    assert!(manager.has_stream());
    assert_eq!(manager.start_capture(Some(&[RETINA])), Err(CaptureError::SessionAlreadyActive));
    manager.stop_capture();
    assert!(!manager.has_stream());
    assert_eq!(manager.start_capture(Some(&[])), Err(CaptureError::NoDisplayFound));
    assert_eq!(manager.start_capture(None), Err(CaptureError::PermissionDenied));
    assert!(!manager.has_stream());
}

#[test]
fn sequential_slot_keeps_only_the_latest_frame() {
    let mut slot = FrameSlot::new();
    assert_eq!(slot.load(), None);
    slot.store(vec![1, 2, 3, 4]);
    assert_eq!(slot.load(), Some(vec![1, 2, 3, 4]));
    slot.store(vec![5, 6, 7, 8, 9]);
    assert_eq!(slot.load(), Some(vec![5, 6, 7, 8, 9]));
    assert_eq!(slot.load(), Some(vec![5, 6, 7, 8, 9]));
}

#[test]
fn shared_slot_keeps_only_the_latest_whole_frame() {
    let slot = SharedFrameSlot::new(8);
    assert_eq!(slot.frame_bytes(), 8);
    assert_eq!(slot.load(), None);
    assert!(slot.store(vec![1u8; 8]));
    assert!(slot.store(vec![2u8; 8]));
    assert_eq!(slot.load(), Some(vec![2u8; 8]));
}

#[test]
fn shared_slot_drops_frames_of_another_length() {
    let slot = SharedFrameSlot::new(8);
    assert!(!slot.store(vec![1u8; 7]));
    assert_eq!(slot.load(), None);
    assert!(slot.store(vec![3u8; 8]));
    assert!(!slot.store(vec![4u8; 9]));
    assert!(!slot.store(vec![]));
    assert_eq!(slot.load(), Some(vec![3u8; 8]));
}

#[test]
fn handles_of_one_slot_see_the_same_frame() {
    let producer = SharedFrameSlot::new(4);
    let consumer = producer.share();
    assert_eq!(consumer.frame_bytes(), 4);
    assert!(producer.store(vec![9, 9, 9, 9]));
    assert_eq!(consumer.load(), Some(vec![9, 9, 9, 9]));
    assert!(consumer.store(vec![1, 1, 1, 1]));
    assert_eq!(producer.load(), Some(vec![1, 1, 1, 1]));
}

#[test]
fn handler_publishes_converted_screen_samples() {
    let slot = SharedFrameSlot::new(TARGET_FRAME_BYTES);
    let handler = ScreenCaptureOutputHandler::new(slot.share());
    let data = [10u8, 20, 30, 255];
    let stored = handler.did_output_sample_buffer(
        &one_pixel_frame(&data, PIXEL_FORMAT_32BGRA),
        StreamOutputType::Screen,
    );
    assert!(stored);
    let frame = slot.load().unwrap();
    assert_eq!(frame.len(), TARGET_FRAME_BYTES);
    assert!(frame.chunks_exact(4).all(|pixel| pixel == [30, 20, 10, 255]));
}

#[test]
fn handler_drops_what_is_not_a_convertible_screen_sample() {
    let slot = SharedFrameSlot::new(TARGET_FRAME_BYTES);
    let handler = MacOSScreenCaptureOutputHandler::new(slot.share());
    let data = [10u8, 20, 30, 255];
    assert!(handler.did_output_sample_buffer(
        &one_pixel_frame(&data, PIXEL_FORMAT_32BGRA),
        StreamOutputType::Screen,
    ));
    let other = [1u8, 2, 3, 4];
    assert!(!handler.did_output_sample_buffer(
        &one_pixel_frame(&other, PIXEL_FORMAT_32BGRA),
        StreamOutputType::Audio,
    ));
    assert!(!handler.did_output_sample_buffer(
        &one_pixel_frame(&other, 875704438),
        StreamOutputType::Screen,
    ));
    let frame = slot.load().unwrap();
    assert_eq!(&frame[0..4], &[30, 20, 10, 255]);
}

#[test]
fn handler_cannot_publish_to_a_slot_of_another_size() {
    let slot = SharedFrameSlot::new(16);
    let handler = ScreenCaptureOutputHandler::new(slot.share());
    let data = [10u8, 20, 30, 255];
    assert!(!handler.did_output_sample_buffer(
        &one_pixel_frame(&data, PIXEL_FORMAT_32BGRA),
        StreamOutputType::Screen,
    ));
    assert_eq!(slot.load(), None);
}

#[test]
fn detector_passes_macos_and_explains_the_rest() {
    assert_eq!(PlatformDetector::check_support(Platform::MacOS), Ok(Platform::MacOS));
    let linux = PlatformDetector::check_support(Platform::Linux).unwrap_err();
    assert!(linux.starts_with("Linux support is not implemented yet.\nTo add Linux support:\n1. "));
    assert!(linux.ends_with("3. Update platform::linux module with real implementation"));
    let windows = PlatformDetector::check_support(Platform::Windows).unwrap_err();
    assert!(windows.starts_with("Windows support is not implemented yet.\n"));
    assert!(windows.contains("DXGI or GDI+"));
}

#[test]
fn detector_lists_requirements_per_platform() {
    assert!(PlatformDetector::get_requirements(Platform::MacOS).starts_with("macOS Requirements:\n"));
    assert!(PlatformDetector::get_requirements(Platform::Windows)
        .starts_with("Windows Requirements (when implemented):\n"));
    assert!(PlatformDetector::get_requirements(Platform::Linux)
        .ends_with("- OpenGL 3.3+ or Vulkan capable GPU"));
}

#[test]
fn render_loop_uploads_latest_frame_or_fallback() {
    let pattern = create_test_pattern();
    assert_eq!(pattern, vec![64u8; 1920 * 1080 * 4]);
    assert_eq!(frame_for_upload(None), pattern);
    assert_eq!(frame_for_upload(Some(vec![1, 2, 3, 4])), vec![1, 2, 3, 4]);
}

#[test]
fn texture_falls_back_to_1920_by_1080() {
    assert_eq!(texture_resolution(Ok(RETINA)), RETINA);
    assert_eq!(
        texture_resolution(Err(CaptureError::NoDisplayFound)),
        DisplayResolution { width: 1920, height: 1080 }
    );
}

#[test]
fn windows_without_area_are_not_configured() {
    assert!(accepts_resize(1, 1));
    assert!(accepts_resize(1280, 720));
    assert!(!accepts_resize(0, 720));
    assert!(!accepts_resize(1280, 0));
    assert!(!accepts_resize(0, 0));
}

#[test]
fn render_outcomes_map_to_reactions() {
    assert_eq!(after_render(RenderOutcome::Presented), RenderReaction::Continue);
    assert_eq!(after_render(RenderOutcome::SurfaceLost), RenderReaction::Reconfigure);
    assert_eq!(after_render(RenderOutcome::OutOfMemory), RenderReaction::Exit);
    assert_eq!(after_render(RenderOutcome::Failed), RenderReaction::Report);
}
