//! Session records kept after a recording attempt finishes.

use vstd::prelude::*;

verus! {

/// Terminal status of a finished recording session.
#[derive(Debug, Clone, Copy, PartialEq, Eq, Structural)]
pub enum SessionStatus {
    Completed,
    Failed,
}

/// One finished recording attempt, from start to stop.
#[derive(Debug, Clone)]
pub struct TimerSession {
    pub id: String,
    pub started_at: String,
    pub ended_at: String,
    pub duration_seconds: u64,
    pub status: SessionStatus,
    pub output_file: Option<String>,
}

} // verus!
