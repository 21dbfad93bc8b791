use recordflow::audio::{convert_u16_sample, MicrophoneCapture};

#[test]
fn ring_evicts_oldest_first() {
    // Capacity is sample_rate * channels * 10 = 10 samples; pushing 15 keeps
    // only the newest 10 — the oldest five are evicted, never the newest.
    let mut mic = MicrophoneCapture::new(1, 1);
    let data: Vec<i16> = (0..15).collect();
    mic.push_samples(&data);
    let out = mic.take_pcm_i16(10);
    let expected: Vec<i16> = (5..15).collect();
    assert_eq!(out, expected);
}

#[test]
fn ring_keeps_everything_under_cap() {
    let mut mic = MicrophoneCapture::new(1, 1);
    mic.push_samples(&[1, 2, 3]);
    mic.push_samples(&[4]);
    assert_eq!(mic.take_pcm_i16(4), vec![1, 2, 3, 4]);
}

#[test]
fn take_zero_pads_when_short() {
    let mut mic = MicrophoneCapture::new(48000, 2);
    mic.push_samples(&[7, -7]);
    assert_eq!(mic.take_pcm_i16(5), vec![7, -7, 0, 0, 0]);
}

#[test]
fn take_consumes_exactly_once() {
    let mut mic = MicrophoneCapture::new(48000, 2);
    mic.push_samples(&[1, 2, 3]);
    assert_eq!(mic.take_pcm_i16(2), vec![1, 2]);
    assert_eq!(mic.take_pcm_i16(2), vec![3, 0]);
}

#[test]
fn pcm_bytes_scale_and_serialize_little_endian() {
    let mut mic = MicrophoneCapture::new(48000, 1);
    mic.push_samples(&[1000, -1000]);
    // Half volume: 500 and -500; -500 as 16-bit little-endian is 0x0C 0xFE.
    let bytes = mic.take_pcm_bytes_le(2, 500);
    assert_eq!(bytes, vec![0xF4, 0x01, 0x0C, 0xFE]);
}

#[test]
fn pcm_bytes_full_volume_is_identity() {
    let mut mic = MicrophoneCapture::new(48000, 1);
    mic.push_samples(&[1234]);
    // A volume above the valid range is clamped to full volume.
    let bytes = mic.take_pcm_bytes_le(1, 2000);
    assert_eq!(bytes, 1234i16.to_le_bytes().to_vec());
}

#[test]
fn pcm_scaling_rounds_half_away_from_zero() {
    let mut mic = MicrophoneCapture::new(48000, 1);
    mic.push_samples(&[1, -1, 1]);
    let bytes = mic.take_pcm_bytes_le(3, 500);
    // 1 * 0.5 rounds to 1, -1 * 0.5 rounds to -1.
    assert_eq!(&bytes[0..2], &1i16.to_le_bytes());
    assert_eq!(&bytes[2..4], &(-1i16).to_le_bytes());
    assert_eq!(&bytes[4..6], &1i16.to_le_bytes());
}

#[test]
fn pcm_scaling_rounds_down_below_half() {
    let mut mic = MicrophoneCapture::new(48000, 1);
    mic.push_samples(&[1]);
    let bytes = mic.take_pcm_bytes_le(1, 499);
    assert_eq!(&bytes[0..2], &0i16.to_le_bytes());
}

#[test]
fn pcm_extreme_samples_stay_in_range() {
    let mut mic = MicrophoneCapture::new(48000, 1);
    mic.push_samples(&[i16::MIN, i16::MAX]);
    let bytes = mic.take_pcm_bytes_le(2, 1000);
    assert_eq!(&bytes[0..2], &i16::MIN.to_le_bytes());
    assert_eq!(&bytes[2..4], &i16::MAX.to_le_bytes());
}

#[test]
fn format_accessors_report_device_format() {
    let mic = MicrophoneCapture::new(44100, 2);
    assert_eq!(mic.sample_rate(), 44100);
    assert_eq!(mic.channels(), 2);
}

#[test]
fn u16_samples_recenter_around_zero() {
    assert_eq!(convert_u16_sample(0), i16::MIN);
    assert_eq!(convert_u16_sample(32768), 0);
    assert_eq!(convert_u16_sample(65535), i16::MAX);
}

#[test]
fn microphone_choice_matches_by_name() {
    let names = vec!["USB Mic".to_string(), "Headset".to_string()];
    assert_eq!(
        recordflow::audio::choose_microphone(&names, &"Headset".to_string()),
        Some(1)
    );
}

#[test]
fn microphone_choice_falls_back_to_default() {
    let names = vec!["USB Mic".to_string()];
    assert_eq!(
        recordflow::audio::choose_microphone(&names, &"Webcam Mic".to_string()),
        None
    );
}
