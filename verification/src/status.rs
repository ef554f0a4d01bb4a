//! The pacing of the status line.
use crate::STATUS_LOG_INTERVAL_MS;
use vstd::prelude::*;

verus! {

/// Whether a status line is due at `now_ms`, the last one having been written at
/// `last_log_ms`: the interval between two lines must have passed in full. Both
/// times are milliseconds on one clock that never runs backwards.
pub open spec fn status_due(last_log_ms: u64, now_ms: u64) -> bool {
    last_log_ms + STATUS_LOG_INTERVAL_MS <= now_ms
}

/// Decides whether a status line is to be written at `now_ms`, and notes that time
/// as the time of the last line where it is.
pub fn status_log_due(last_log_ms: &mut u64, now_ms: u64) -> (due: bool)
    ensures
        due == status_due(*old(last_log_ms), now_ms),
        *final(last_log_ms) == if due {
            now_ms
        } else {
            *old(last_log_ms)
        },
{
    let due = match last_log_ms.checked_add(STATUS_LOG_INTERVAL_MS) {
        Some(next_log_ms) => next_log_ms <= now_ms,
        None => false,
    };
    if due {
        *last_log_ms = now_ms;
    }
    due
}

} // verus!
