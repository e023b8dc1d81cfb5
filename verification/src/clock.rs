//! Moments and spans of time, in nanoseconds from a fixed start.

use vstd::prelude::*;

verus! {

pub const MILLISECOND: u64 = 1_000_000;

/// The moment `span` after `now`, or the last one that can be written.
pub open spec fn after(now: u64, span: u64) -> u64 {
    if now + span <= u64::MAX {
        (now + span) as u64
    } else {
        u64::MAX
    }
}

/// The time from `then` to `now`; none where `then` is still to come.
pub open spec fn elapsed(then: u64, now: u64) -> u64 {
    if then <= now {
        (now - then) as u64
    } else {
        0
    }
}

pub fn moment_after(now: u64, span: u64) -> (r: u64)
    ensures
        r == after(now, span),
{
    if span <= u64::MAX - now {
        now + span
    } else {
        u64::MAX
    }
}

pub fn time_since(then: u64, now: u64) -> (r: u64)
    ensures
        r == elapsed(then, now),
{
    if then <= now {
        now - then
    } else {
        0
    }
}

/// The time from a moment to a later one is the span between them, and none passes backwards;
/// what is after a span is after it, as far as the clock goes.
pub proof fn law_time_adds_up(now: u64, span: u64, later: u64)
    ensures
        now + span <= u64::MAX ==> after(now, span) == now + span && elapsed(now, after(now, span))
            == span,
        after(now, span) >= now,
        now <= later ==> now + elapsed(now, later) == later,
        later <= now ==> elapsed(now, later) == 0,
{
}

} // verus!
