use recordflow::capture::{
    choose_camera_index, frame_from_latest, rgb_to_bgra, scale_bgra_nearest,
    validate_target_resolution,
};

#[test]
fn scale_identity_returns_buffer_unchanged() {
    let src: Vec<u8> = (0u8..64).collect();
    let out = scale_bgra_nearest(&src, 4, 4, 4, 4);
    assert_eq!(out, src);
}

#[test]
fn scale_downsamples_nearest() {
    // 2x2 frame with distinct pixels scaled to 1x1 keeps the top-left pixel.
    let src = vec![
        1, 2, 3, 4, //
        5, 6, 7, 8, //
        9, 10, 11, 12, //
        13, 14, 15, 16,
    ];
    let out = scale_bgra_nearest(&src, 2, 2, 1, 1);
    assert_eq!(out, vec![1, 2, 3, 4]);
}

#[test]
fn scale_upsamples_nearest() {
    // 1x1 frame scaled to 2x2 repeats the pixel.
    let src = vec![9, 8, 7, 6];
    let out = scale_bgra_nearest(&src, 1, 1, 2, 2);
    assert_eq!(out, vec![9, 8, 7, 6, 9, 8, 7, 6, 9, 8, 7, 6, 9, 8, 7, 6]);
}

#[test]
fn rgb_converts_to_bgra_with_opaque_alpha() {
    let rgb = vec![1, 2, 3, 4, 5, 6];
    let out = rgb_to_bgra(&rgb);
    assert_eq!(out, vec![3, 2, 1, 255, 6, 5, 4, 255]);
}

#[test]
fn rgb_drops_trailing_fragment() {
    let rgb = vec![1, 2, 3, 4, 5];
    let out = rgb_to_bgra(&rgb);
    assert_eq!(out, vec![3, 2, 1, 255]);
}

#[test]
fn frame_from_latest_synthesizes_black() {
    let f = frame_from_latest(None, 3, 2, 500, 7);
    assert_eq!(f.width, 3);
    assert_eq!(f.height, 2);
    assert_eq!(f.timestamp, 500);
    assert_eq!(f.frame_number, 7);
    assert_eq!(f.data, vec![0u8; 24]);
}

#[test]
fn frame_from_latest_passes_data_through() {
    let data = vec![1u8, 2, 3, 4];
    let f = frame_from_latest(Some(data.clone()), 1, 1, 0, 1);
    assert_eq!(f.data, data);
}

#[test]
fn camera_choice_prefers_matching_index() {
    let indices = vec![5u64, 3, 9];
    assert_eq!(choose_camera_index(&indices, Some(9)), 2);
}

#[test]
fn camera_choice_falls_back_to_position() {
    let indices = vec![5u64, 3, 9];
    assert_eq!(choose_camera_index(&indices, Some(1)), 1);
}

#[test]
fn camera_choice_defaults_to_first() {
    let indices = vec![5u64, 3, 9];
    assert_eq!(choose_camera_index(&indices, Some(77)), 0);
    assert_eq!(choose_camera_index(&indices, None), 0);
}

#[test]
fn target_resolution_must_be_positive() {
    assert!(validate_target_resolution(1280, 720).is_ok());
    assert_eq!(validate_target_resolution(0, 720).unwrap_err().code, "INVALID_SETTINGS");
    assert_eq!(validate_target_resolution(1280, 0).unwrap_err().code, "INVALID_SETTINGS");
}
