//! Time windows with an inclusive end: a window that starts at `start` and lasts
//! `duration` seconds is closed from `start + duration` on (the deadline second
//! itself already counts as expired). Deadlines saturate at `u64::MAX`.

use vstd::prelude::*;

verus! {

/// `start + duration`, saturated at `u64::MAX`.
pub open spec fn spec_deadline(start: u64, duration: u64) -> u64 {
    if start + duration > u64::MAX {
        u64::MAX
    } else {
        (start + duration) as u64
    }
}

/// Window open at `start` (inclusive).
pub fn is_window_open(now: u64, start: u64) -> (r: bool)
    ensures
        r == (now >= start),
{
    now >= start
}

/// Window closed at `start + duration` (inclusive — the deadline IS the expiry moment).
pub fn is_window_closed(now: u64, start: u64, duration: u64) -> (r: bool)
    ensures
        r == (now >= spec_deadline(start, duration)),
{
    now >= start.saturating_add(duration)
}

/// Window still active at `now`.
pub fn is_window_active(now: u64, start: u64, duration: u64) -> (r: bool)
    ensures
        r == (now < spec_deadline(start, duration)),
{
    !is_window_closed(now, start, duration)
}

/// Absolute deadline for a window (inclusive end).
pub fn window_deadline(start: u64, duration: u64) -> (r: u64)
    ensures
        r == spec_deadline(start, duration),
{
    start.saturating_add(duration)
}

/// Check if deadline has been reached.
pub fn is_deadline_reached(now: u64, deadline: u64) -> (r: bool)
    ensures
        r == (now >= deadline),
{
    now >= deadline
}

/// Check if deadline is pending (not yet reached).
pub fn is_deadline_pending(now: u64, deadline: u64) -> (r: bool)
    ensures
        r == (now < deadline),
{
    now < deadline
}

} // verus!

verus! {

/// `a - b`, saturated at zero.
pub open spec fn spec_floor_sub(a: u64, b: u64) -> u64 {
    if a < b {
        0
    } else {
        (a - b) as u64
    }
}

} // verus!
