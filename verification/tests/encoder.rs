use recordflow::encoder::{flip_vertical_bgra, VideoEncoder, HNS_PER_SEC};

#[test]
fn audio_pacing_requests_exact_shortfall() {
    // At elapsed = 1.0 s with 48 kHz mono and nothing written yet, exactly
    // 48000 samples are owed; once they are written, the same elapsed time
    // owes zero.
    let mut enc = VideoEncoder::new(1280, 720, 30, 5000, Some((48000, 1)));
    assert_eq!(enc.audio_samples_needed_for_elapsed(1000), Some(48000));

    let pcm = vec![0u8; 48000 * 2];
    let sample = enc.encode_audio(&pcm).unwrap().unwrap();
    assert_eq!(sample.frames, 48000);
    assert_eq!(enc.audio_samples_needed_for_elapsed(1000), Some(0));
}

#[test]
fn audio_pacing_counts_samples_not_frames() {
    // Stereo: the owed count is frames times channels.
    let enc = VideoEncoder::new(1280, 720, 30, 5000, Some((48000, 2)));
    assert_eq!(enc.audio_samples_needed_for_elapsed(500), Some(48000));
}

#[test]
fn audio_pacing_none_without_audio_track() {
    let enc = VideoEncoder::new(1280, 720, 30, 5000, None);
    assert_eq!(enc.audio_samples_needed_for_elapsed(1000), None);
}

#[test]
fn audio_times_come_from_written_frames() {
    let mut enc = VideoEncoder::new(2, 2, 30, 5000, Some((48000, 1)));
    let pcm = vec![0u8; 48000 * 2];
    let first = enc.encode_audio(&pcm).unwrap().unwrap();
    assert_eq!(first.time_hns, 0);
    assert_eq!(first.duration_hns, HNS_PER_SEC as i64);
    let second = enc.encode_audio(&pcm).unwrap().unwrap();
    assert_eq!(second.time_hns, HNS_PER_SEC as i64);
}

#[test]
fn audio_skips_empty_and_subframe_chunks() {
    let mut enc = VideoEncoder::new(2, 2, 30, 5000, Some((48000, 2)));
    assert!(enc.encode_audio(&vec![]).unwrap().is_none());
    // Three bytes is less than one stereo 16-bit frame.
    assert!(enc.encode_audio(&vec![0u8; 3]).unwrap().is_none());
}

#[test]
fn video_durations_positive_and_consistent() {
    let mut enc = VideoEncoder::new(2, 2, 30, 5000, None);
    let frame = vec![0u8; 16];

    let s1 = enc.encode_frame(&frame, 0).unwrap();
    assert_eq!(s1.time_hns, 0);
    assert_eq!(s1.duration_hns, (HNS_PER_SEC / 30) as i64);

    // Time advanced: the duration is exactly the gap to the previous sample.
    let s2 = enc.encode_frame(&frame, 100).unwrap();
    assert_eq!(s2.time_hns, 1_000_000);
    assert_eq!(s2.duration_hns, 1_000_000);
    assert_eq!(s1.time_hns + s2.duration_hns, s2.time_hns);

    // Time stalled: the fallback of one frame interval keeps the duration
    // strictly positive.
    let s3 = enc.encode_frame(&frame, 100).unwrap();
    assert_eq!(s3.duration_hns, (HNS_PER_SEC / 30) as i64);

    assert!(s1.duration_hns >= 1);
    assert!(s2.duration_hns >= 1);
    assert!(s3.duration_hns >= 1);
}

#[test]
fn video_rejects_wrong_frame_length() {
    let mut enc = VideoEncoder::new(2, 2, 30, 5000, None);
    let e = enc.encode_frame(&vec![0u8; 15], 0).unwrap_err();
    assert_eq!(e.code, "ENCODING_FAILED");
}

#[test]
fn zero_fps_is_raised_to_one() {
    let mut enc = VideoEncoder::new(2, 2, 0, 5000, None);
    let s = enc.encode_frame(&vec![0u8; 16], 0).unwrap();
    assert_eq!(s.duration_hns, HNS_PER_SEC as i64);
}

#[test]
fn finalize_is_exactly_once() {
    let mut enc = VideoEncoder::new(2, 2, 30, 5000, None);
    assert!(enc.finalize().is_ok());
    let e = enc.finalize().unwrap_err();
    assert_eq!(e.code, "ENCODING_FAILED");
    let e2 = enc.encode_frame(&vec![0u8; 16], 0).unwrap_err();
    assert_eq!(e2.code, "ENCODING_FAILED");
}

#[test]
fn frame_with_audio_combines_both_tracks() {
    let mut enc = VideoEncoder::new(2, 2, 30, 5000, Some((1000, 1)));
    let frame = vec![0u8; 16];
    let pcm = vec![0u8; 500 * 2];
    let (video, audio) = enc.encode_frame_with_audio(&frame, 0, &pcm).unwrap();
    assert_eq!(video.time_hns, 0);
    let audio = audio.unwrap();
    assert_eq!(audio.frames, 500);
    assert_eq!(audio.time_hns, 0);
    assert_eq!(audio.duration_hns, (HNS_PER_SEC / 2) as i64);
}

#[test]
fn flip_reverses_row_order() {
    let src = vec![
        1, 1, 1, 1, //
        2, 2, 2, 2, //
        3, 3, 3, 3,
    ];
    let mut dst = Vec::new();
    flip_vertical_bgra(&src, 1, 3, &mut dst);
    assert_eq!(
        dst,
        vec![
            3, 3, 3, 3, //
            2, 2, 2, 2, //
            1, 1, 1, 1,
        ]
    );
}
