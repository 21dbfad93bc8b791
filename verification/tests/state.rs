use recordflow::history::{SessionStatus, TimerSession};
use recordflow::settings::{
    resolution_dims, CameraPosition, CameraSize, RecordingSettings, Resolution,
};
use recordflow::state::AppState;

fn session(id: &str) -> TimerSession {
    TimerSession {
        id: id.to_string(),
        started_at: "2024-01-01T00:00:00+00:00".to_string(),
        ended_at: "2024-01-01T00:01:00+00:00".to_string(),
        duration_seconds: 60,
        status: SessionStatus::Completed,
        output_file: None,
    }
}

#[test]
fn default_settings_match_expected_values() {
    let s = RecordingSettings::default();
    assert!(s.screen_enabled);
    assert_eq!(s.resolution, Resolution::P1080);
    assert_eq!(s.fps, 30);
    assert_eq!(s.bitrate, 5000);
    assert_eq!(s.selected_display, 0);
    assert!(!s.camera_enabled);
    assert_eq!(s.camera_position, CameraPosition::BottomRight);
    assert_eq!(s.camera_size, CameraSize::Medium);
    assert!(s.mic_enabled);
    assert_eq!(s.mic_volume, 800);
    assert!(!s.system_audio_enabled);
    assert_eq!(s.system_audio_volume, 600);
}

#[test]
fn resolutions_map_to_pixel_sizes() {
    assert_eq!(resolution_dims(Resolution::P720), (1280, 720));
    assert_eq!(resolution_dims(Resolution::P1080), (1920, 1080));
}

#[test]
fn state_transitions_enforce_order() {
    let mut st = AppState::new();
    assert!(!st.is_recording);

    assert_eq!(st.stop_recording().unwrap_err().code, "NOT_RECORDING");
    assert_eq!(st.pause_recording().unwrap_err().code, "NOT_RECORDING");

    st.start_recording("a.mp4".to_string()).unwrap();
    assert!(st.is_recording);
    assert_eq!(st.output_file.as_deref(), Some("a.mp4"));
    assert_eq!(st.start_recording("b.mp4".to_string()).unwrap_err().code, "ALREADY_RECORDING");

    assert_eq!(st.resume_recording().unwrap_err().code, "INVALID_SETTINGS");
    st.pause_recording().unwrap();
    assert!(st.is_paused);
    assert_eq!(st.pause_recording().unwrap_err().code, "INVALID_SETTINGS");
    st.resume_recording().unwrap();
    assert!(!st.is_paused);

    st.stop_recording().unwrap();
    assert!(!st.is_recording);
}

#[test]
fn history_push_delete_clear() {
    let mut st = AppState::new();
    st.push_history(session("a"));
    st.push_history(session("b"));
    st.push_history(session("a"));
    assert_eq!(st.get_history().len(), 3);

    st.delete_history(&"a".to_string());
    let left = st.get_history();
    assert_eq!(left.len(), 1);
    assert_eq!(left[0].id, "b");

    st.clear_history();
    assert!(st.get_history().is_empty());
}

#[test]
fn set_history_replaces_contents() {
    let mut st = AppState::new();
    st.push_history(session("old"));
    st.set_history(vec![session("x"), session("y")]);
    let h = st.get_history();
    assert_eq!(h.len(), 2);
    assert_eq!(h[0].id, "x");
    assert_eq!(h[1].id, "y");
}

#[test]
fn settings_update_round_trips() {
    let mut st = AppState::new();
    let mut s = RecordingSettings::default();
    s.fps = 60;
    s.mic_volume = 250;
    st.update_settings(s);
    assert_eq!(st.get_settings().fps, 60);
    assert_eq!(st.get_settings().mic_volume, 250);
}
