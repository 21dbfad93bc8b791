//! A read-only projection of the recorder's current state.

use vstd::prelude::*;

verus! {

/// Snapshot of the recording state, recomputed on demand.
#[derive(Debug, Clone)]
pub struct RecordingStatus {
    pub is_recording: bool,
    pub is_paused: bool,
    pub output_file: Option<String>,
    pub elapsed_seconds: u64,
}

} // verus!
