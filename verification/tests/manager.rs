use recordflow::history::SessionStatus;
use recordflow::manager::{
    classify_startup_failure, CaptureClock, CaptureComponent, RecordingManager, StartOutcome,
    StartupAction, WorkerJoin,
};
use recordflow::state::AppState;
use recordflow::error::RecorderError;

fn committed_manager(now_ms: u64) -> RecordingManager {
    let mut m = RecordingManager::new(AppState::new());
    let r = m.start_commit(StartOutcome::Ready, "out.mp4".to_string(), now_ms);
    assert_eq!(r.unwrap(), "out.mp4");
    m
}

#[test]
fn start_while_recording_is_rejected_unchanged() {
    let mut m = RecordingManager::new(AppState::new());
    m.worker_active = true;
    let e = m.start_request().unwrap_err();
    assert_eq!(e.code, "ALREADY_RECORDING");
    assert!(m.worker_active);
    assert!(!m.state.is_recording);
    assert!(m.state.output_file.is_none());
}

#[test]
fn start_with_screen_disabled_is_rejected_without_side_effects() {
    let mut m = RecordingManager::new(AppState::new());
    m.state.settings.screen_enabled = false;
    let e = m.start_request().unwrap_err();
    assert_eq!(e.code, "INVALID_SETTINGS");
    assert!(!m.worker_active);
    assert!(!m.state.is_recording);
    assert!(m.state.output_file.is_none());
    assert!(m.session_id.is_none());
}

#[test]
fn pause_on_idle_reports_not_recording() {
    let mut m = RecordingManager::new(AppState::new());
    let e = m.pause_recording(0).unwrap_err();
    assert_eq!(e.code, "NOT_RECORDING");
}

#[test]
fn resume_while_not_paused_reports_invalid_settings() {
    let mut m = committed_manager(1000);
    let e = m.resume_recording(2000).unwrap_err();
    assert_eq!(e.code, "INVALID_SETTINGS");
    assert_eq!(e.details.as_deref(), Some("Not paused"));
}

#[test]
fn pause_twice_reports_invalid_settings() {
    let mut m = committed_manager(1000);
    assert_eq!(m.pause_recording(2000).unwrap(), "paused");
    let e = m.pause_recording(3000).unwrap_err();
    assert_eq!(e.code, "INVALID_SETTINGS");
    assert_eq!(e.details.as_deref(), Some("Already paused"));
}

#[test]
fn elapsed_subtracts_paused_intervals() {
    let mut m = committed_manager(1000);
    assert_eq!(m.elapsed_seconds(11_000), 10);

    m.pause_recording(11_000).unwrap();
    // Frozen at the pause-start instant while paused.
    assert_eq!(m.elapsed_seconds(20_000), 10);

    m.resume_recording(16_000).unwrap();
    // 21_000 - 1_000 wall minus 5_000 paused.
    assert_eq!(m.elapsed_seconds(21_000), 15);

    // A second pause/resume accumulates.
    m.pause_recording(21_000).unwrap();
    m.resume_recording(24_000).unwrap();
    assert_eq!(m.elapsed_seconds(25_000), 16);
}

#[test]
fn elapsed_is_zero_before_start() {
    let m = RecordingManager::new(AppState::new());
    assert_eq!(m.elapsed_seconds(5_000), 0);
}

#[test]
fn stop_produces_completed_session() {
    let mut m = committed_manager(1000);
    let out = m.stop_recording(WorkerJoin::Finished, 31_000).unwrap();
    assert_eq!(out, "out.mp4");
    assert!(!m.worker_active);
    assert!(!m.state.is_recording);

    let sess = m.take_last_session().unwrap();
    assert_eq!(sess.id.len(), 36);
    assert_eq!(sess.duration_seconds, 30);
    assert_eq!(sess.status, SessionStatus::Completed);
    assert_eq!(sess.output_file.as_deref(), Some("out.mp4"));
    assert!(m.take_last_session().is_none());
}

#[test]
fn stop_after_worker_failure_keeps_failed_session() {
    let mut m = committed_manager(1000);
    let worker_err = RecorderError::encoding_failed("device lost");
    let e = m.stop_recording(WorkerJoin::Failed(worker_err), 2000).unwrap_err();
    assert_eq!(e.code, "ENCODING_FAILED");
    let sess = m.take_last_session().unwrap();
    assert_eq!(sess.status, SessionStatus::Failed);
}

#[test]
fn stop_after_worker_panic_reports_encoding_failure() {
    let mut m = committed_manager(1000);
    let e = m.stop_recording(WorkerJoin::Panicked, 2000).unwrap_err();
    assert_eq!(e.code, "ENCODING_FAILED");
    assert_eq!(m.take_last_session().unwrap().status, SessionStatus::Failed);
}

#[test]
fn stop_without_session_keeps_no_record() {
    let mut m = RecordingManager::new(AppState::new());
    let out = m.stop_recording(WorkerJoin::NotRunning, 500).unwrap();
    assert_eq!(out, "");
    assert!(m.take_last_session().is_none());
}

#[test]
fn init_error_surfaces_and_raises_stop_flag() {
    let mut m = RecordingManager::new(AppState::new());
    let e = m
        .start_commit(
            StartOutcome::InitError(RecorderError::device_not_found("Display")),
            "out.mp4".to_string(),
            0,
        )
        .unwrap_err();
    assert_eq!(e.code, "DEVICE_NOT_FOUND");
    assert!(m.stop_flag);
    assert!(!m.worker_active);
    assert!(!m.state.is_recording);
}

#[test]
fn handshake_timeout_with_live_worker_commits() {
    let mut m = RecordingManager::new(AppState::new());
    let r = m.start_commit(StartOutcome::TimeoutAlive, "late.mp4".to_string(), 100);
    assert_eq!(r.unwrap(), "late.mp4");
    assert!(m.worker_active);
    assert!(m.state.is_recording);
}

#[test]
fn handshake_timeout_with_dead_worker_fails() {
    let mut m = RecordingManager::new(AppState::new());
    let e = m
        .start_commit(StartOutcome::TimeoutExited, "x.mp4".to_string(), 0)
        .unwrap_err();
    assert_eq!(e.code, "ENCODING_FAILED");
    assert!(!m.worker_active);
}

#[test]
fn status_snapshot_reflects_state() {
    let mut m = committed_manager(1000);
    let s = m.snapshot_status(4_500);
    assert!(s.is_recording);
    assert!(!s.is_paused);
    assert_eq!(s.output_file.as_deref(), Some("out.mp4"));
    assert_eq!(s.elapsed_seconds, 3);

    m.pause_recording(5_000).unwrap();
    let s2 = m.snapshot_status(9_000);
    assert!(s2.is_paused);
    assert_eq!(s2.elapsed_seconds, 4);
}

#[test]
fn worker_clock_skips_paused_iterations() {
    let mut clock = CaptureClock::new(0);
    assert_eq!(clock.tick(100, false), Some(100));
    assert_eq!(clock.tick(200, true), None);
    assert_eq!(clock.tick(300, true), None);
    // Paused from 200 to 400: two hundred milliseconds excluded.
    assert_eq!(clock.tick(400, false), Some(200));
    assert_eq!(clock.tick(500, false), Some(300));
}

#[test]
fn optional_device_failures_degrade_mandatory_abort() {
    let err = || RecorderError::device_not_found("Device");

    for c in [CaptureComponent::Microphone, CaptureComponent::Camera] {
        assert!(matches!(
            classify_startup_failure(c, err()),
            StartupAction::ContinueWithout
        ));
    }
    for c in [CaptureComponent::Screen, CaptureComponent::Encoder] {
        match classify_startup_failure(c, err()) {
            StartupAction::Abort(e) => assert_eq!(e.code, "DEVICE_NOT_FOUND"),
            StartupAction::ContinueWithout => panic!("mandatory component must abort"),
        }
    }
}
