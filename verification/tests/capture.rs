use automation_core::capture::{frame_from_raw, process_capture, transform_frame, Frame};
use base64::Engine as _;

fn solid_frame(width: u32, height: u32, rgba: [u8; 4]) -> Frame {
    let mut pixels = Vec::with_capacity((width * height * 4) as usize);
    for _ in 0..width * height {
        pixels.extend_from_slice(&rgba);
    }
    frame_from_raw(width, height, pixels).unwrap()
}

/// The crop region a capture request denotes: the target scaled by the
/// fractional device-pixel ratio, as the boundary that owns the OS handle
/// computes it before handing the library plain values.
fn scaled_crop(target_w: u32, target_h: u32, scale_factor: f32) -> (u32, u32) {
    (
        (target_w as f32 * scale_factor) as u32,
        (target_h as f32 * scale_factor) as u32,
    )
}

#[test]
fn frame_from_raw_checks_buffer_length() {
    assert!(frame_from_raw(2, 2, vec![0u8; 16]).is_some());
    assert!(frame_from_raw(2, 2, vec![0u8; 15]).is_none());
    assert!(frame_from_raw(2, 2, vec![0u8; 17]).is_none());
    assert!(frame_from_raw(0, 0, Vec::new()).is_some());
}

#[test]
fn crop_region_scales_the_target_by_the_device_pixel_ratio() {
    assert_eq!(scaled_crop(800, 600, 2.0), (1600, 1200));
    assert_eq!(scaled_crop(800, 600, 1.5), (1200, 900));
    assert_eq!(scaled_crop(800, 600, 1.0), (800, 600));
    assert_eq!(scaled_crop(800, 600, 0.5), (400, 300));
}

#[test]
fn transform_delivers_exact_target_dimensions() {
    let frame = solid_frame(1920, 1080, [10, 20, 30, 255]);
    let out = transform_frame(&frame, 800, 600, None);
    assert_eq!((out.width, out.height), (800, 600));
    assert_eq!(out.pixels.len(), 800 * 600 * 4);

    let small = solid_frame(16, 16, [1, 2, 3, 255]);
    let up = transform_frame(&small, 800, 600, None);
    assert_eq!((up.width, up.height), (800, 600));
}

#[test]
fn transform_crops_the_scaled_region_before_resampling() {
    let frame = solid_frame(2000, 1500, [5, 6, 7, 255]);
    let crop = scaled_crop(800, 600, 2.0);
    assert_eq!(crop, (1600, 1200));
    let out = transform_frame(&frame, 800, 600, Some(crop));
    assert_eq!((out.width, out.height), (800, 600));
}

#[test]
fn transform_crop_takes_the_origin_pixel() {
    // Two horizontally adjacent pixels; cropping one at the origin and
    // copying it through a same-size resize must deliver the left pixel
    // untouched, while resampling the whole frame would blend the two.
    let pixels = vec![10, 20, 30, 255, 200, 210, 220, 255];
    let frame = frame_from_raw(2, 1, pixels).unwrap();
    let out = transform_frame(&frame, 1, 1, Some((1, 1)));
    assert_eq!((out.width, out.height), (1, 1));
    assert_eq!(out.pixels, vec![10, 20, 30, 255]);
}

#[test]
fn transform_crop_clamps_to_the_frame() {
    let frame = solid_frame(4, 4, [9, 9, 9, 255]);
    let out = transform_frame(&frame, 8, 8, Some((16, 16)));
    assert_eq!((out.width, out.height), (8, 8));
}

#[test]
fn capture_returns_decodable_png_of_target_size() {
    let frame = solid_frame(1920, 1080, [40, 80, 120, 255]);
    let encoded = process_capture(&frame, 100, 100, None).unwrap();
    let bytes = base64::engine::general_purpose::STANDARD
        .decode(encoded)
        .expect("transport text must be valid base64");
    let img = image::load_from_memory(&bytes).expect("payload must be a decodable image");
    assert_eq!((img.width(), img.height()), (100, 100));
    assert_eq!(img.to_rgba8().get_pixel(50, 50).0, [40, 80, 120, 255]);
}

#[test]
fn capture_is_deterministic_in_frame_and_arguments() {
    let frame = solid_frame(320, 240, [17, 34, 51, 255]);
    let first = process_capture(&frame, 100, 50, Some((200, 100))).unwrap();
    let second = process_capture(&frame, 100, 50, Some((200, 100))).unwrap();
    assert_eq!(first, second);
}

#[test]
fn capture_crop_mode_end_to_end() {
    let frame = solid_frame(640, 480, [1, 2, 3, 255]);
    let crop = scaled_crop(100, 50, 2.0);
    let encoded = process_capture(&frame, 100, 50, Some(crop)).unwrap();
    let bytes = base64::engine::general_purpose::STANDARD
        .decode(encoded)
        .unwrap();
    let img = image::load_from_memory(&bytes).unwrap();
    assert_eq!((img.width(), img.height()), (100, 50));
}

#[test]
fn capture_fractional_scale_end_to_end() {
    // At device-pixel ratio 1.5 a 100x80 target crops a 150x120 region.
    let frame = solid_frame(300, 200, [8, 16, 24, 255]);
    let crop = scaled_crop(100, 80, 1.5);
    assert_eq!(crop, (150, 120));
    let encoded = process_capture(&frame, 100, 80, Some(crop)).unwrap();
    let bytes = base64::engine::general_purpose::STANDARD
        .decode(encoded)
        .unwrap();
    let img = image::load_from_memory(&bytes).unwrap();
    assert_eq!((img.width(), img.height()), (100, 80));
}
