//! Shared recorder context: the settings snapshot, the recording/paused
//! flags, the current output file, and the session history.
//!
//! Modeled as one explicitly-owned value; the surrounding program serializes
//! access to it. No operation leaves the flags inconsistent with its reported
//! outcome.

use vstd::prelude::*;
use crate::error::RecorderError;
use crate::history::TimerSession;
use crate::settings::RecordingSettings;

verus! {

/// A clone of an optional string, by value.
pub fn clone_opt_string(o: &Option<String>) -> (r: Option<String>)
    ensures
        r == *o,
{
    match o {
        Some(s) => Some(s.clone()),
        None => None,
    }
}

/// The recorder's shared mutable state.
pub struct AppState {
    pub settings: RecordingSettings,
    pub is_recording: bool,
    pub is_paused: bool,
    pub output_file: Option<String>,
    pub history: Vec<TimerSession>,
}

impl AppState {
    /// Fresh state: default settings, not recording, empty history.
    pub fn new() -> (r: Self)
        ensures
            r.settings.screen_enabled,
            r.settings.mic_enabled,
            !r.settings.camera_enabled,
            !r.settings.system_audio_enabled,
            r.settings.resolution == crate::settings::Resolution::P1080,
            r.settings.fps == 30u32,
            r.settings.bitrate == 5000u32,
            r.settings.selected_display == 0u32,
            r.settings.camera_position == crate::settings::CameraPosition::BottomRight,
            r.settings.camera_size == crate::settings::CameraSize::Medium,
            r.settings.mic_volume == 800u32,
            r.settings.system_audio_volume == 600u32,
            !r.is_recording,
            !r.is_paused,
            r.output_file is None,
            r.history@ == Seq::<TimerSession>::empty(),
    {
        AppState {
            settings: RecordingSettings::default(),
            is_recording: false,
            is_paused: false,
            output_file: None,
            history: Vec::new(),
        }
    }

    /// Replaces the whole session history.
    pub fn set_history(&mut self, history: Vec<TimerSession>)
        ensures
            *final(self) == (AppState { history, ..*old(self) }),
    {
        self.history = history;
    }

    /// The current session history, oldest first.
    pub fn get_history(&self) -> (r: &Vec<TimerSession>)
        ensures
            r == &self.history,
    {
        &self.history
    }

    /// Appends one finished session to the history.
    pub fn push_history(&mut self, session: TimerSession)
        ensures
            final(self).history@ == old(self).history@.push(session),
            final(self).settings == old(self).settings,
            final(self).is_recording == old(self).is_recording,
            final(self).is_paused == old(self).is_paused,
            final(self).output_file == old(self).output_file,
    {
        self.history.push(session);
    }

    /// Removes every session whose id equals `id`, keeping the rest in
    /// order.
    pub fn delete_history(&mut self, id: &String)
        ensures
            final(self).history@ == old(self).history@.filter(|s: TimerSession| s.id@ != id@),
            final(self).settings == old(self).settings,
            final(self).is_recording == old(self).is_recording,
            final(self).is_paused == old(self).is_paused,
            final(self).output_file == old(self).output_file,
    {
        let mut kept: Vec<TimerSession> = Vec::new();
        let ghost orig = self.history@;
        let n: usize = self.history.len();
        let mut i: usize = 0;
        while i < n
            invariant
                0 <= i <= n,
                n == self.history@.len(),
                self.history@ == orig,
                kept@ == orig.take(i as int).filter(|s: TimerSession| s.id@ != id@),
                self.settings == old(self).settings,
                self.is_recording == old(self).is_recording,
                self.is_paused == old(self).is_paused,
                self.output_file == old(self).output_file,
            decreases n - i,
        {
            let keep: bool = !(self.history[i].id == *id);
            if keep {
                let s = &self.history[i];
                let copy = TimerSession {
                    id: s.id.clone(),
                    started_at: s.started_at.clone(),
                    ended_at: s.ended_at.clone(),
                    duration_seconds: s.duration_seconds,
                    status: s.status,
                    output_file: clone_opt_string(&s.output_file),
                };
                proof {
                    assert(copy == orig[i as int]);
                }
                kept.push(copy);
            }
            proof {
                let pred = |s: TimerSession| s.id@ != id@;
                let t1 = orig.take(i as int + 1);
                assert(t1.drop_last() =~= orig.take(i as int));
                assert(t1.last() == orig[i as int]);
                reveal_with_fuel(Seq::filter, 2);
                assert(kept@ == t1.filter(pred));
            }
            i = i + 1;
        }
        proof {
            assert(orig.take(n as int) =~= orig);
        }
        self.history = kept;
    }

    /// Clears the whole session history.
    pub fn clear_history(&mut self)
        ensures
            final(self).history@ == Seq::<TimerSession>::empty(),
            final(self).settings == old(self).settings,
            final(self).is_recording == old(self).is_recording,
            final(self).is_paused == old(self).is_paused,
            final(self).output_file == old(self).output_file,
    {
        self.history = Vec::new();
    }

    /// Marks the state recording with the given output file. Fails with
    /// `AlreadyRecording` — changing nothing — when a recording is active.
    pub fn start_recording(&mut self, output_file: String) -> (r: Result<(), RecorderError>)
        ensures
            r is Ok <==> !old(self).is_recording,
            r matches Err(e) ==> e.is_already_recording() && *final(self) == *old(self),
            r is Ok ==> *final(self) == (AppState {
                is_recording: true,
                is_paused: false,
                output_file: Some(output_file),
                ..*old(self)
            }),
    {
        if self.is_recording {
            return Err(RecorderError::already_recording());
        }
        self.is_recording = true;
        self.is_paused = false;
        self.output_file = Some(output_file);
        Ok(())
    }

    /// Marks the state stopped. Fails with `NotRecording` — changing nothing
    /// — when no recording is active.
    pub fn stop_recording(&mut self) -> (r: Result<(), RecorderError>)
        ensures
            r is Ok <==> old(self).is_recording,
            r matches Err(e) ==> e.is_not_recording() && *final(self) == *old(self),
            r is Ok ==> *final(self) == (AppState {
                is_recording: false,
                is_paused: false,
                ..*old(self)
            }),
    {
        if !self.is_recording {
            return Err(RecorderError::not_recording());
        }
        self.is_recording = false;
        self.is_paused = false;
        Ok(())
    }

    /// Marks the state paused. Fails with `NotRecording` when idle and with
    /// `InvalidSettings` when already paused, changing nothing either way.
    pub fn pause_recording(&mut self) -> (r: Result<(), RecorderError>)
        ensures
            r is Ok <==> old(self).is_recording && !old(self).is_paused,
            !old(self).is_recording ==> (r matches Err(e) && e.is_not_recording()),
            old(self).is_recording && old(self).is_paused ==> (r matches Err(e)
                && e.is_invalid_settings()),
            r is Err ==> *final(self) == *old(self),
            r is Ok ==> *final(self) == (AppState { is_paused: true, ..*old(self) }),
    {
        if !self.is_recording {
            return Err(RecorderError::not_recording());
        }
        if self.is_paused {
            return Err(RecorderError::invalid_settings("Already paused"));
        }
        self.is_paused = true;
        Ok(())
    }

    /// Marks the state resumed. Fails with `NotRecording` when idle and with
    /// `InvalidSettings` when not paused, changing nothing either way.
    pub fn resume_recording(&mut self) -> (r: Result<(), RecorderError>)
        ensures
            r is Ok <==> old(self).is_recording && old(self).is_paused,
            !old(self).is_recording ==> (r matches Err(e) && e.is_not_recording()),
            old(self).is_recording && !old(self).is_paused ==> (r matches Err(e)
                && e.is_invalid_settings()),
            r is Err ==> *final(self) == *old(self),
            r is Ok ==> *final(self) == (AppState { is_paused: false, ..*old(self) }),
    {
        if !self.is_recording {
            return Err(RecorderError::not_recording());
        }
        if !self.is_paused {
            return Err(RecorderError::invalid_settings("Not paused"));
        }
        self.is_paused = false;
        Ok(())
    }

    /// Replaces the settings snapshot.
    pub fn update_settings(&mut self, settings: RecordingSettings)
        ensures
            *final(self) == (AppState { settings, ..*old(self) }),
    {
        self.settings = settings;
    }

    /// The current settings snapshot.
    pub fn get_settings(&self) -> (r: &RecordingSettings)
        ensures
            r == &self.settings,
    {
        &self.settings
    }
}

} // verus!
