use recordflow::compositor::{overlay_geometry, FrameCompositor, OVERLAY_MARGIN};
use recordflow::settings::{CameraPosition, CameraSize};

#[test]
fn overlay_large_width_on_1000() {
    let (tw, th, x0, y0) = overlay_geometry(
        1000,
        1000,
        640,
        480,
        CameraPosition::BottomRight,
        CameraSize::Large,
    );
    assert_eq!(tw, 350);
    assert_eq!(th, 262);
    assert_eq!(x0, 1000 - 350 - OVERLAY_MARGIN);
    assert_eq!(y0, 1000 - 262 - OVERLAY_MARGIN);
}

#[test]
fn overlay_medium_and_small_widths() {
    let (tw_m, _, _, _) = overlay_geometry(
        1000,
        1000,
        640,
        480,
        CameraPosition::TopLeft,
        CameraSize::Medium,
    );
    let (tw_s, _, _, _) = overlay_geometry(
        1000,
        1000,
        640,
        480,
        CameraPosition::TopLeft,
        CameraSize::Small,
    );
    assert_eq!(tw_m, 250);
    assert_eq!(tw_s, 150);
}

#[test]
fn overlay_fallback_origin_on_overflow() {
    // 17 * 15 / 100 = 2; a margin of 16 would place the overlay at 16..18,
    // past the 17-pixel primary, so both axes fall back to 0.
    let (tw, th, x0, y0) = overlay_geometry(
        17,
        17,
        10,
        10,
        CameraPosition::TopLeft,
        CameraSize::Small,
    );
    assert_eq!(tw, 2);
    assert_eq!(th, 2);
    assert_eq!(x0, 0);
    assert_eq!(y0, 0);
}

#[test]
fn overlay_preserves_buffer_length() {
    let mut screen = vec![0u8; 1000 * 1000 * 4];
    let camera = vec![7u8; 640 * 480 * 4];
    let r = FrameCompositor::overlay_bgra(
        &mut screen,
        1000,
        1000,
        &camera,
        640,
        480,
        CameraPosition::BottomRight,
        CameraSize::Large,
    );
    assert!(r.is_ok());
    assert_eq!(screen.len(), 1000 * 1000 * 4);
}

#[test]
fn overlay_rejects_zero_dimensions() {
    let mut screen = vec![0u8; 16];
    let camera = vec![0u8; 16];
    let r = FrameCompositor::overlay_bgra(
        &mut screen,
        0,
        2,
        &camera,
        2,
        2,
        CameraPosition::TopLeft,
        CameraSize::Small,
    );
    let e = r.unwrap_err();
    assert_eq!(e.code, "INVALID_SETTINGS");
    assert_eq!(screen, vec![0u8; 16]);
}

#[test]
fn overlay_rejects_short_buffer() {
    let mut screen = vec![0u8; 15];
    let camera = vec![0u8; 16];
    let r = FrameCompositor::overlay_bgra(
        &mut screen,
        2,
        2,
        &camera,
        2,
        2,
        CameraPosition::TopLeft,
        CameraSize::Small,
    );
    assert_eq!(r.unwrap_err().code, "INVALID_SETTINGS");
}

#[test]
fn overlay_rejects_mismatched_long_buffer() {
    // A buffer longer than the declared dimensions is a mismatch too.
    let mut screen = vec![0u8; 2 * 2 * 4 + 4];
    let camera = vec![0u8; 2 * 2 * 4];
    let r = FrameCompositor::overlay_bgra(
        &mut screen,
        2,
        2,
        &camera,
        2,
        2,
        CameraPosition::TopLeft,
        CameraSize::Small,
    );
    assert_eq!(r.unwrap_err().code, "INVALID_SETTINGS");
    assert_eq!(screen, vec![0u8; 20]);

    let mut exact = vec![0u8; 2 * 2 * 4];
    let long_camera = vec![0u8; 2 * 2 * 4 + 4];
    let r2 = FrameCompositor::overlay_bgra(
        &mut exact,
        2,
        2,
        &long_camera,
        2,
        2,
        CameraPosition::TopLeft,
        CameraSize::Small,
    );
    assert_eq!(r2.unwrap_err().code, "INVALID_SETTINGS");
}

#[test]
fn overlay_writes_camera_pixels() {
    // 4x4 primary of ones; 2x2 secondary with distinct pixels. Small size on
    // a 4-wide primary gives a 1x1 overlay; the margin overflows, so it lands
    // at the origin with the secondary's top-left pixel.
    let mut screen = vec![1u8; 4 * 4 * 4];
    let mut camera = Vec::new();
    for p in 0..4u8 {
        camera.extend_from_slice(&[10 + p, 20 + p, 30 + p, 255]);
    }
    let r = FrameCompositor::overlay_bgra(
        &mut screen,
        4,
        4,
        &camera,
        2,
        2,
        CameraPosition::TopLeft,
        CameraSize::Small,
    );
    assert!(r.is_ok());
    assert_eq!(&screen[0..4], &[10, 20, 30, 255]);
    for i in 4..screen.len() {
        assert_eq!(screen[i], 1);
    }
}
