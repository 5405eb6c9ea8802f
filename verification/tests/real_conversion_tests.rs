use cloak_share::pixel_conversion::PIXEL_FORMAT_32BGRA;
use cloak_share::screen_capture::ScreenCaptureManager;

#[test]
fn test_convert_sample_buffer_error_handling() {
    // Expected behavior of the conversion:
    // - None for invalid pixel formats
    // - None for null base addresses
    // - None for buffer lock failures
    // - Some(Vec<u8>) for valid BGRA buffers
    println!("Real conversion test placeholder - need CMSampleBuffer mocking");
}

#[test]
fn test_pixel_format_constants() {
    // Test that our pixel format constants are correct
    assert_eq!(PIXEL_FORMAT_32BGRA, 1111970369); // 'BGRA' in FourCC

    // Test the YUV format
    let yuv_format = 875704438; // '420v'
    assert_ne!(yuv_format, PIXEL_FORMAT_32BGRA);
}

#[test]
fn test_target_resolution_constants() {
    // Test that our target resolution matches what's used in the real conversion
    const TARGET_W: usize = 1920;
    const TARGET_H: usize = 1080;
    const EXPECTED_RGBA_SIZE: usize = TARGET_W * TARGET_H * 4;

    assert_eq!(EXPECTED_RGBA_SIZE, 8_294_400); // 1920 * 1080 * 4 bytes
}

#[test]
fn test_bgra_to_rgba_channel_mapping() {
    // Test the actual channel swapping used in the real conversion
    let bgra_bytes = [0x10, 0x20, 0x30, 0xFF]; // B=16, G=32, R=48, A=255

    // Manual conversion like in the real function
    let b = bgra_bytes[0];
    let g = bgra_bytes[1];
    let r = bgra_bytes[2];
    let a = bgra_bytes[3];

    let rgba_bytes = [r, g, b, a]; // Convert to RGBA order

    assert_eq!(rgba_bytes, [0x30, 0x20, 0x10, 0xFF]); // R=48, G=32, B=16, A=255
}

#[test]
fn test_scaling_math_accuracy() {
    // Test the scaling calculations used in the real conversion function
    let src_width = 2560.0; // Common high-res width
    let src_height = 1440.0; // Common high-res height
    let target_w = 1920.0;
    let target_h = 1080.0;

    let scale_x = src_width / target_w; // ~1.33
    let scale_y = src_height / target_h; // ~1.33

    // Test a few coordinate mappings
    let dst_x = 960; // Middle of target width
    let dst_y = 540; // Middle of target height

    let src_x = ((dst_x as f32 * scale_x) as usize).min((src_width as usize).saturating_sub(1));
    let src_y = ((dst_y as f32 * scale_y) as usize).min((src_height as usize).saturating_sub(1));

    // Should map to approximately the middle of source
    assert!(src_x >= 1270 && src_x <= 1290); // ~1280 (middle of 2560)
    assert!(src_y >= 710 && src_y <= 730);   // ~720 (middle of 1440)
}

#[test]
fn test_bytes_per_row_validation() {
    // Test the bytes_per_row validation logic from the real conversion
    let width = 1920;
    let expected_min_bpr = width * 4; // BGRA = 4 bytes per pixel

    // Valid bytes_per_row (exactly minimum)
    assert!(expected_min_bpr <= expected_min_bpr);

    // Valid bytes_per_row (with padding)
    let padded_bpr = expected_min_bpr + 64; // Some systems add padding
    assert!(padded_bpr >= expected_min_bpr);

    // Invalid bytes_per_row (too small)
    let invalid_bpr = expected_min_bpr - 1;
    assert!(invalid_bpr < expected_min_bpr);
}

#[test]
fn test_screen_capture_manager_integration() {
    let manager = ScreenCaptureManager::new();

    // Test initial state
    assert!(manager.get_latest_frame().is_none());

    println!("Screen capture manager created successfully");
}
