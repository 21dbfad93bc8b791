//! The recording session state machine.
//!
//! One session at a time: start spawns a capture worker and commits on its
//! readiness handshake; stop joins the worker and always produces a terminal
//! session record, even on failure. Pause and resume account for paused time,
//! which is subtracted from the elapsed recording time everywhere.
//!
//! Time is carried as milliseconds read from one monotonic clock; the caller
//! passes the current reading to each operation, and each reading must not
//! precede the ones already recorded.

use vstd::prelude::*;
use vstd::string::StringExecFns;
use crate::error::RecorderError;
use crate::history::{SessionStatus, TimerSession};
use crate::ids;
use crate::paths;
use crate::state::{clone_opt_string, AppState};
use crate::status::RecordingStatus;
use crate::timestamp;

verus! {

/// The sum of the lengths of the completed pause intervals.
pub open spec fn sum_intervals(log: Seq<(u64, u64)>) -> int
    decreases log.len(),
{
    if log.len() == 0 {
        0
    } else {
        sum_intervals(log.drop_last()) + (log.last().1 - log.last().0)
    }
}

/// A capture component the worker opens during session startup.
#[derive(Debug, Clone, Copy, PartialEq, Eq, Structural)]
pub enum CaptureComponent {
    Screen,
    Encoder,
    Microphone,
    Camera,
}

/// Whether the session can run without the component.
pub open spec fn spec_component_optional(c: CaptureComponent) -> bool {
    match c {
        CaptureComponent::Microphone | CaptureComponent::Camera => true,
        CaptureComponent::Screen | CaptureComponent::Encoder => false,
    }
}

/// What the worker does about a component that failed to open at startup.
pub enum StartupAction {
    /// Optional component: run the session without it.
    ContinueWithout,
    /// Mandatory component: abort startup, surfacing the device's error.
    Abort(RecorderError),
}

/// Classifies a device-open failure during worker startup: a failed optional
/// component (microphone, camera) degrades the session to run without that
/// device, while a failed mandatory component (the screen source, the
/// encoder) aborts the session before it starts.
pub fn classify_startup_failure(component: CaptureComponent, error: RecorderError) -> (r:
    StartupAction)
    ensures
        spec_component_optional(component) ==> r is ContinueWithout,
        !spec_component_optional(component) ==> (r matches StartupAction::Abort(e) && e == error),
{
    match component {
        CaptureComponent::Microphone | CaptureComponent::Camera => StartupAction::ContinueWithout,
        CaptureComponent::Screen | CaptureComponent::Encoder => StartupAction::Abort(error),
    }
}

/// Outcome of the startup handshake with the capture worker.
pub enum StartOutcome {
    /// The worker reported that every device is open and capture began.
    Ready,
    /// The worker reported an initialization failure.
    InitError(RecorderError),
    /// The handshake timed out but the worker is still alive: slow device
    /// initialization is not itself a failure, so the session is committed
    /// optimistically.
    TimeoutAlive,
    /// The handshake timed out and the worker exited without reporting.
    TimeoutExited,
    /// The handshake timed out and the worker exited with an error.
    TimeoutErr(RecorderError),
    /// The handshake timed out and the worker panicked.
    TimeoutPanicked,
}

/// Outcome of joining the capture worker at stop time.
pub enum WorkerJoin {
    /// No worker was running.
    NotRunning,
    /// The worker finished cleanly.
    Finished,
    /// The worker returned an error.
    Failed(RecorderError),
    /// The worker panicked.
    Panicked,
}

/// Supervises one recording session: worker lifecycle, pause accounting, and
/// terminal session records.
pub struct RecordingManager {
    pub state: AppState,
    pub started_at_ms: Option<u64>,
    pub started_wall: Option<String>,
    pub paused_at_ms: Option<u64>,
    pub paused_total_ms: u64,
    pub session_id: Option<String>,
    pub last_session: Option<TimerSession>,
    pub stop_flag: bool,
    pub pause_flag: bool,
    pub worker_active: bool,
    pub pause_log: Ghost<Seq<(u64, u64)>>,
}

impl RecordingManager {
    /// The pause accounting is consistent: the accumulated total is exactly
    /// the sum of the completed pause intervals, a pending pause begins no
    /// earlier than the start plus all paused time before it, and an idle
    /// manager has no pause state at all.
    pub open spec fn wf(self) -> bool {
        &&& forall|k: int|
            0 <= k < self.pause_log@.len() ==> (#[trigger] self.pause_log@[k]).0
                <= self.pause_log@[k].1
        &&& self.paused_total_ms as int == sum_intervals(self.pause_log@)
        &&& self.started_at_ms is None ==> self.paused_at_ms is None && self.paused_total_ms
            == 0 && self.pause_log@.len() == 0
        &&& self.paused_at_ms matches Some(p) ==> (self.started_at_ms matches Some(st) && st
            + self.paused_total_ms <= p)
        &&& self.state.is_recording ==> self.started_at_ms is Some
    }

    /// Elapsed recording time in milliseconds at clock reading `now_ms`:
    /// wall-clock time since start minus all paused time, frozen at the
    /// pause-start instant while paused, and zero before any session began.
    pub open spec fn spec_elapsed_ms(self, now_ms: int) -> int {
        match self.started_at_ms {
            None => 0,
            Some(st) => {
                let reference = match self.paused_at_ms {
                    Some(p) => p as int,
                    None => now_ms,
                };
                let total = if reference >= st {
                    reference - st
                } else {
                    0
                };
                if total >= self.paused_total_ms {
                    total - self.paused_total_ms
                } else {
                    0
                }
            },
        }
    }

    /// Elapsed recording time in whole seconds at clock reading `now_ms`.
    pub open spec fn spec_elapsed_seconds(self, now_ms: int) -> int {
        self.spec_elapsed_ms(now_ms) / 1000
    }

    /// A fresh manager around the given state: idle, with no session and no
    /// pause debt.
    pub fn new(state: AppState) -> (r: Self)
        requires
            !state.is_recording,
        ensures
            r.wf(),
            r.state == state,
            r.started_at_ms is None,
            r.started_wall is None,
            r.paused_at_ms is None,
            r.paused_total_ms == 0,
            r.session_id is None,
            r.last_session is None,
            !r.stop_flag,
            !r.pause_flag,
            !r.worker_active,
            r.pause_log@ == Seq::<(u64, u64)>::empty(),
    {
        RecordingManager {
            state,
            started_at_ms: None,
            started_wall: None,
            paused_at_ms: None,
            paused_total_ms: 0,
            session_id: None,
            last_session: None,
            stop_flag: false,
            pause_flag: false,
            worker_active: false,
            pause_log: Ghost(Seq::empty()),
        }
    }

    /// Elapsed recording time in whole seconds at clock reading `now_ms`.
    pub fn elapsed_seconds(&self, now_ms: u64) -> (r: u64)
        ensures
            r == self.spec_elapsed_seconds(now_ms as int),
    {
        let st: u64 = match self.started_at_ms {
            Some(st) => st,
            None => {
                return 0;
            },
        };
        let reference: u64 = match self.paused_at_ms {
            Some(p) => p,
            None => now_ms,
        };
        let total: u64 = if reference >= st {
            reference - st
        } else {
            0
        };
        let net: u64 = if total >= self.paused_total_ms {
            total - self.paused_total_ms
        } else {
            0
        };
        net / 1000
    }

    /// The current status projection: the recording/paused flags, the output
    /// file, and the elapsed seconds at clock reading `now_ms`.
    pub fn snapshot_status(&self, now_ms: u64) -> (r: RecordingStatus)
        ensures
            r.is_recording == self.state.is_recording,
            r.is_paused == self.state.is_paused,
            r.output_file == self.state.output_file,
            r.elapsed_seconds == self.spec_elapsed_seconds(now_ms as int),
    {
        RecordingStatus {
            is_recording: self.state.is_recording,
            is_paused: self.state.is_paused,
            output_file: clone_opt_string(&self.state.output_file),
            elapsed_seconds: self.elapsed_seconds(now_ms),
        }
    }

    /// Hands out the most recent terminal session record, clearing it.
    pub fn take_last_session(&mut self) -> (r: Option<TimerSession>)
        ensures
            r == old(self).last_session,
            *final(self) == (RecordingManager { last_session: None, ..*old(self) }),
    {
        self.last_session.take()
    }

    /// The output path for a new recording: a timestamped file name inside
    /// `dir`.
    pub fn build_output_path(dir: &str) -> (r: String)
        ensures
            r@.len() >= dir@.len() + 30,
            r@.subrange(0, dir@.len() as int) == dir@,
            r@.subrange(dir@.len() as int, dir@.len() as int + 11) == "\\recording_"@,
            paths::spec_ends_with(r@, ".mp4"@),
    {
        let ts = timestamp::local_timestamp_compact();
        let mut out = dir.to_owned();
        out.append("\\recording_");
        out.append(ts.as_str());
        out.append(".mp4");
        proof {
            reveal_strlit("\\recording_");
            reveal_strlit(".mp4");
            assert(out@.subrange(0, dir@.len() as int) =~= dir@);
            assert(out@.subrange(dir@.len() as int, dir@.len() as int + 11) =~= "\\recording_"@);
            assert(out@.subrange(out@.len() - 4, out@.len() as int) =~= ".mp4"@);
        }
        out
    }

    /// Validates a start request and yields the output path for the new
    /// session. Rejects a configuration with screen capture disabled, and a
    /// second start while a worker exists — in both cases nothing changes, no
    /// worker is spawned and no output path is created. On success the stop
    /// and pause flags are reset and the caller may spawn the worker, then
    /// commit the handshake outcome with [`Self::start_commit`].
    pub fn start_request(&mut self) -> (r: Result<String, RecorderError>)
        requires
            old(self).wf(),
        ensures
            final(self).wf(),
            !old(self).state.settings.screen_enabled ==> (r matches Err(e)
                && e.is_invalid_settings()),
            old(self).state.settings.screen_enabled && old(self).worker_active ==> (r matches Err(
                e,
            ) && e.is_already_recording()),
            old(self).state.settings.screen_enabled && !old(self).worker_active ==> (r is Ok || (
            r matches Err(e) && e.is_file_error())),
            r is Err ==> *final(self) == *old(self),
            r is Ok ==> old(self).state.settings.screen_enabled && !old(self).worker_active,
            r matches Ok(path) ==> {
                &&& *final(self) == (RecordingManager {
                    stop_flag: false,
                    pause_flag: false,
                    ..*old(self)
                })
                &&& paths::spec_ends_with(path@, ".mp4"@)
            },
    {
        if !self.state.settings.screen_enabled {
            return Err(
                RecorderError::invalid_settings(
                    "Screen recording is disabled (camera/audio-only recording not implemented yet)",
                ),
            );
        }
        if self.worker_active {
            return Err(RecorderError::already_recording());
        }

        let dir: String = match crate::files::get_default_save_location() {
            Ok(d) => d,
            Err(e) => {
                return Err(e);
            },
        };
        let path = Self::build_output_path(dir.as_str());

        self.stop_flag = false;
        self.pause_flag = false;
        Ok(path)
    }

    /// Commits the startup handshake. A ready worker — or one still alive at
    /// the timeout — transitions the manager to recording, records the
    /// session start, and keeps the worker handle; every failure outcome
    /// surfaces the worker's error and leaves no worker handle behind.
    pub fn start_commit(&mut self, outcome: StartOutcome, output_path: String, now_ms: u64) -> (r:
        Result<String, RecorderError>)
        requires
            old(self).wf(),
            !old(self).worker_active,
        ensures
            final(self).wf(),
            match outcome {
                StartOutcome::Ready | StartOutcome::TimeoutAlive => {
                    if old(self).state.is_recording {
                        r matches Err(e) && e.is_already_recording() && *final(self) == *old(self)
                    } else {
                        &&& r matches Ok(p) && p == output_path
                        &&& final(self).state.is_recording
                        &&& !final(self).state.is_paused
                        &&& final(self).state.output_file == Some(output_path)
                        &&& final(self).state.settings == old(self).state.settings
                        &&& final(self).state.history == old(self).state.history
                        &&& final(self).worker_active
                        &&& final(self).started_at_ms == Some(now_ms)
                        &&& final(self).started_wall is Some
                        &&& final(self).paused_at_ms is None
                        &&& final(self).paused_total_ms == 0
                        &&& final(self).session_id matches Some(id) && id@.len() == 36
                        &&& final(self).last_session == old(self).last_session
                        &&& final(self).stop_flag == old(self).stop_flag
                        &&& final(self).pause_flag == old(self).pause_flag
                    }
                },
                StartOutcome::InitError(e) => r == Err::<String, _>(e) && *final(self)
                    == (RecordingManager { stop_flag: true, ..*old(self) }),
                StartOutcome::TimeoutErr(e) => r == Err::<String, _>(e) && *final(self) == *old(
                    self,
                ),
                StartOutcome::TimeoutExited => (r matches Err(e) && e.is_encoding_failed())
                    && *final(self) == *old(self),
                StartOutcome::TimeoutPanicked => (r matches Err(e) && e.is_encoding_failed())
                    && *final(self) == *old(self),
            },
    {
        match outcome {
            StartOutcome::Ready | StartOutcome::TimeoutAlive => {
                let for_state = output_path.clone();
                match self.state.start_recording(for_state) {
                    Ok(()) => {},
                    Err(e) => {
                        return Err(e);
                    },
                }
                self.session_id = Some(ids::fresh_session_id());
                self.started_wall = Some(timestamp::utc_now_rfc3339());
                self.started_at_ms = Some(now_ms);
                self.paused_at_ms = None;
                self.paused_total_ms = 0;
                self.pause_log = Ghost(Seq::empty());
                self.worker_active = true;
                Ok(output_path)
            },
            StartOutcome::InitError(e) => {
                self.stop_flag = true;
                Err(e)
            },
            StartOutcome::TimeoutErr(e) => Err(e),
            StartOutcome::TimeoutExited => Err(
                RecorderError::encoding_failed("Worker exited unexpectedly during startup"),
            ),
            StartOutcome::TimeoutPanicked => Err(
                RecorderError::encoding_failed("Worker thread panicked during startup"),
            ),
        }
    }

    /// Stops the session. Whatever the worker's fate, the internal timers are
    /// cleared and — when a session had begun — a terminal record is kept,
    /// marked failed exactly when the worker failed or panicked; the worker's
    /// error, if any, is surfaced as the result. On success the output path
    /// is returned, or the empty string when none was recorded.
    pub fn stop_recording(&mut self, outcome: WorkerJoin, now_ms: u64) -> (r: Result<
        String,
        RecorderError,
    >)
        requires
            old(self).wf(),
        ensures
            final(self).wf(),
            final(self).stop_flag,
            !final(self).pause_flag,
            !final(self).worker_active,
            final(self).started_at_ms is None,
            final(self).started_wall is None,
            final(self).session_id is None,
            final(self).paused_at_ms is None,
            final(self).paused_total_ms == 0,
            !final(self).state.is_recording,
            final(self).state.is_paused == (
                if old(self).state.is_recording {
                    false
                } else {
                    old(self).state.is_paused
                }
            ),
            final(self).state.output_file == old(self).state.output_file,
            final(self).state.settings == old(self).state.settings,
            final(self).state.history == old(self).state.history,
            r is Err <==> (outcome is Failed || outcome is Panicked),
            outcome matches WorkerJoin::Failed(e) ==> r == Err::<String, _>(e),
            outcome is Panicked ==> (r matches Err(e) && e.is_encoding_failed()),
            r matches Ok(s) ==> match old(self).state.output_file {
                Some(f) => s == f,
                None => s@.len() == 0,
            },
            old(self).session_id matches Some(id) ==> (old(self).started_wall is Some ==> (
            final(self).last_session matches Some(sess) && {
                &&& sess.id == id
                &&& sess.started_at == old(self).started_wall->0
                &&& sess.duration_seconds == old(self).spec_elapsed_seconds(now_ms as int)
                &&& sess.status == (
                    if outcome is Failed || outcome is Panicked {
                        SessionStatus::Failed
                    } else {
                        SessionStatus::Completed
                    }
                )
                &&& sess.output_file == old(self).state.output_file
            })),
            old(self).session_id is None || old(self).started_wall is None
                ==> final(self).last_session is None,
    {
        self.stop_flag = true;
        self.pause_flag = false;

        let worker_error: Option<RecorderError> = match outcome {
            WorkerJoin::NotRunning | WorkerJoin::Finished => None,
            WorkerJoin::Failed(e) => Some(e),
            WorkerJoin::Panicked => Some(
                RecorderError::encoding_failed("Recording thread panicked"),
            ),
        };
        self.worker_active = false;

        let status: SessionStatus = match &worker_error {
            Some(_) => SessionStatus::Failed,
            None => SessionStatus::Completed,
        };
        let session: Option<TimerSession> = self.build_session(status, now_ms);
        self.last_session = session;

        if self.state.is_recording {
            match self.state.stop_recording() {
                Ok(()) => {},
                Err(_) => {},
            }
        }

        self.started_at_ms = None;
        self.started_wall = None;
        self.session_id = None;
        self.paused_at_ms = None;
        self.paused_total_ms = 0;
        self.pause_log = Ghost(Seq::empty());

        match worker_error {
            Some(e) => Err(e),
            None => {
                match &self.state.output_file {
                    Some(f) => Ok(f.clone()),
                    None => Ok(String::new()),
                }
            },
        }
    }

    /// The terminal record of the current session: its identity, wall-clock
    /// start and end, net duration at `now_ms`, and output file. `None` when
    /// no session had begun.
    fn build_session(&self, status: SessionStatus, now_ms: u64) -> (r: Option<TimerSession>)
        ensures
            r is Some <==> self.session_id is Some && self.started_wall is Some,
            r matches Some(sess) ==> {
                &&& sess.id == self.session_id->0
                &&& sess.started_at == self.started_wall->0
                &&& sess.duration_seconds == self.spec_elapsed_seconds(now_ms as int)
                &&& sess.status == status
                &&& sess.output_file == self.state.output_file
            },
    {
        let id: String = match &self.session_id {
            Some(id) => id.clone(),
            None => {
                return None;
            },
        };
        let started_wall: String = match &self.started_wall {
            Some(w) => w.clone(),
            None => {
                return None;
            },
        };
        let ended = timestamp::utc_now_rfc3339();
        let duration_seconds = self.elapsed_seconds(now_ms);
        let output_file = clone_opt_string(&self.state.output_file);
        Some(
            TimerSession {
                id,
                started_at: started_wall,
                ended_at: ended,
                duration_seconds,
                status,
                output_file,
            },
        )
    }

    /// Pauses the session at clock reading `now_ms`: valid only while
    /// recording and not paused; the error cases change nothing. Pausing
    /// raises the worker's pause flag and records the pause-start instant, so
    /// elapsed time freezes there.
    pub fn pause_recording(&mut self, now_ms: u64) -> (r: Result<String, RecorderError>)
        requires
            old(self).wf(),
            old(self).started_at_ms matches Some(st) ==> now_ms >= st + old(
                self,
            ).paused_total_ms,
        ensures
            final(self).wf(),
            r is Ok <==> old(self).state.is_recording && !old(self).state.is_paused,
            !old(self).state.is_recording ==> (r matches Err(e) && e.is_not_recording()),
            old(self).state.is_recording && old(self).state.is_paused ==> (r matches Err(e)
                && e.is_invalid_settings()),
            r is Err ==> *final(self) == *old(self),
            r matches Ok(s) ==> {
                &&& s@ == "paused"@
                &&& final(self).state == (AppState { is_paused: true, ..old(self).state })
                &&& *final(self) == (RecordingManager {
                    state: final(self).state,
                    pause_flag: true,
                    paused_at_ms: Some(now_ms),
                    ..*old(self)
                })
            },
    {
        match self.state.pause_recording() {
            Ok(()) => {},
            Err(e) => {
                return Err(e);
            },
        }
        self.pause_flag = true;
        self.paused_at_ms = Some(now_ms);
        Ok("paused".to_owned())
    }

    /// Resumes the session at clock reading `now_ms`: valid only while
    /// paused; the error cases change nothing. The just-ended pause interval
    /// is added to the accumulated paused total, which all elapsed-time
    /// computations subtract.
    pub fn resume_recording(&mut self, now_ms: u64) -> (r: Result<String, RecorderError>)
        requires
            old(self).wf(),
            old(self).paused_at_ms matches Some(p) ==> now_ms >= p,
        ensures
            final(self).wf(),
            r is Ok <==> old(self).state.is_recording && old(self).state.is_paused,
            !old(self).state.is_recording ==> (r matches Err(e) && e.is_not_recording()),
            old(self).state.is_recording && !old(self).state.is_paused ==> (r matches Err(e)
                && e.is_invalid_settings()),
            r is Err ==> *final(self) == *old(self),
            r matches Ok(s) ==> {
                &&& s@ == "resumed"@
                &&& final(self).state == (AppState { is_paused: false, ..old(self).state })
                &&& final(self).paused_at_ms is None
                &&& !final(self).pause_flag
                &&& (old(self).paused_at_ms matches Some(p) ==> {
                    &&& final(self).paused_total_ms == old(self).paused_total_ms + (now_ms - p)
                    &&& final(self).pause_log@ == old(self).pause_log@.push((p, now_ms))
                })
                &&& (old(self).paused_at_ms is None ==> final(self).paused_total_ms
                    == old(self).paused_total_ms && final(self).pause_log@ == old(
                    self,
                ).pause_log@)
                &&& final(self).started_at_ms == old(self).started_at_ms
                &&& final(self).started_wall == old(self).started_wall
                &&& final(self).session_id == old(self).session_id
                &&& final(self).last_session == old(self).last_session
                &&& final(self).stop_flag == old(self).stop_flag
                &&& final(self).worker_active == old(self).worker_active
            },
    {
        match self.state.resume_recording() {
            Ok(()) => {},
            Err(e) => {
                return Err(e);
            },
        }
        self.pause_flag = false;
        match self.paused_at_ms {
            Some(p) => {
                let interval: u64 = now_ms - p;
                self.paused_total_ms = self.paused_total_ms + interval;
                self.paused_at_ms = None;
                proof {
                    let log1 = self.pause_log@.push((p, now_ms));
                    assert(log1.drop_last() =~= self.pause_log@);
                    assert(sum_intervals(log1) == sum_intervals(self.pause_log@) + (now_ms - p));
                }
                self.pause_log = Ghost(self.pause_log@.push((p, now_ms)));
            },
            None => {},
        }
        Ok("resumed".to_owned())
    }

    /// Elapsed time while recording and not paused is exactly the wall-clock
    /// time since start minus the sum of all completed pause intervals.
    pub proof fn lemma_elapsed_accounts_for_pauses(m: RecordingManager, now_ms: int)
        requires
            m.wf(),
            m.started_at_ms matches Some(st),
            m.paused_at_ms is None,
            now_ms >= m.started_at_ms->0 + m.paused_total_ms,
        ensures
            m.spec_elapsed_seconds(now_ms) == (now_ms - m.started_at_ms->0 - sum_intervals(
                m.pause_log@,
            )) / 1000,
    {
    }

    /// While recording and not paused, elapsed time never decreases as the
    /// clock advances.
    pub proof fn lemma_elapsed_monotonic(m: RecordingManager, now1: int, now2: int)
        requires
            m.wf(),
            now1 <= now2,
        ensures
            m.spec_elapsed_seconds(now1) <= m.spec_elapsed_seconds(now2),
    {
        vstd::arithmetic::div_mod::lemma_div_is_ordered(
            m.spec_elapsed_ms(now1),
            m.spec_elapsed_ms(now2),
            1000,
        );
    }

    /// While paused, elapsed time is frozen: it does not depend on the clock
    /// at all.
    pub proof fn lemma_elapsed_frozen_while_paused(m: RecordingManager, now1: int, now2: int)
        requires
            m.wf(),
            m.paused_at_ms is Some,
        ensures
            m.spec_elapsed_seconds(now1) == m.spec_elapsed_seconds(now2),
    {
    }
}

/// The capture worker's own view of recording time: it polls the pause flag
/// once per loop iteration, skips the iteration while paused, and accumulates
/// the paused interval on resume, so the elapsed time it stamps frames with
/// excludes paused intervals.
pub struct CaptureClock {
    pub started_ms: u64,
    pub paused_total_ms: u64,
    pub pause_started_ms: Option<u64>,
}

impl CaptureClock {
    /// A pending pause begins no earlier than the start plus all paused time
    /// before it.
    pub open spec fn wf(self) -> bool {
        self.pause_started_ms matches Some(p) ==> self.started_ms + self.paused_total_ms <= p
    }

    /// A fresh worker clock, started at `now_ms`.
    pub fn new(now_ms: u64) -> (r: Self)
        ensures
            r.wf(),
            r.started_ms == now_ms,
            r.paused_total_ms == 0,
            r.pause_started_ms is None,
    {
        CaptureClock { started_ms: now_ms, paused_total_ms: 0, pause_started_ms: None }
    }

    /// One poll at the top of the capture loop. While the pause flag is set
    /// the iteration is skipped (`None`), recording where the pause began; on
    /// the first unpaused poll the just-ended pause joins the paused total.
    /// Otherwise yields the elapsed recording time for this iteration: time
    /// since start minus all paused time.
    pub fn tick(&mut self, now_ms: u64, pause_flag: bool) -> (r: Option<u64>)
        requires
            old(self).wf(),
            now_ms >= old(self).started_ms + old(self).paused_total_ms,
            old(self).pause_started_ms matches Some(p) ==> now_ms >= p,
        ensures
            final(self).wf(),
            final(self).started_ms == old(self).started_ms,
            pause_flag ==> {
                &&& r is None
                &&& final(self).paused_total_ms == old(self).paused_total_ms
                &&& final(self).pause_started_ms == (
                    match old(self).pause_started_ms {
                        Some(p) => Some(p),
                        None => Some(now_ms),
                    }
                )
            },
            !pause_flag ==> {
                &&& final(self).pause_started_ms is None
                &&& final(self).paused_total_ms == (
                    match old(self).pause_started_ms {
                        Some(p) => old(self).paused_total_ms + (now_ms - p),
                        None => old(self).paused_total_ms as int,
                    }
                )
                &&& r == Some(
                    (now_ms - old(self).started_ms - final(self).paused_total_ms) as u64,
                )
            },
    {
        if pause_flag {
            if self.pause_started_ms.is_none() {
                self.pause_started_ms = Some(now_ms);
            }
            return None;
        }

        match self.pause_started_ms {
            Some(p) => {
                self.paused_total_ms = self.paused_total_ms + (now_ms - p);
                self.pause_started_ms = None;
            },
            None => {},
        }

        Some(now_ms - self.started_ms - self.paused_total_ms)
    }
}

} // verus!
