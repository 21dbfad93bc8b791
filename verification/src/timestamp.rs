//! Wall-clock timestamps for session records and output file names.

use vstd::prelude::*;

verus! {

/// Relies on chrono::Utc::now and DateTime::to_rfc3339: the current UTC
/// wall-clock time as an RFC 3339 string. The value depends on the clock, so
/// nothing is promised of it.
#[verifier::external_body]
pub(crate) fn utc_now_rfc3339() -> (r: String) {
    chrono::Utc::now().to_rfc3339()
}

/// Relies on chrono::Local::now and DateTime::format: the current local time
/// in a compact year-month-day_hour-minute-second form, whose zero-padded
/// fields give at least 15 characters.
#[verifier::external_body]
pub(crate) fn local_timestamp_compact() -> (r: String)
    ensures
        r@.len() >= 15,
{
    chrono::Local::now().format("%Y%m%d_%H%M%S").to_string()
}

} // verus!
