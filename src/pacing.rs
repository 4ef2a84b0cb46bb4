//! The fixed frame cadence: how long a poll has to wait before it may do work.
use vstd::prelude::*;

verus! {

/// The frame interval in nanoseconds: a poll does no work until this long after the
/// previous poll ended, which keeps polling near 60 per second.
pub const FRAME_INTERVAL_NANOS: u64 = 16_000_000;

/// Time elapsed from `last` to `now`; a clock reading earlier than `last` counts as none.
pub open spec fn elapsed_spec(last: u64, now: u64) -> int {
    if now >= last {
        now - last
    } else {
        0
    }
}

/// What is left of the frame interval that began at `last`, seen at `now`.
pub open spec fn pacing_delay_spec(last: u64, now: u64) -> int {
    if elapsed_spec(last, now) < FRAME_INTERVAL_NANOS {
        FRAME_INTERVAL_NANOS - elapsed_spec(last, now)
    } else {
        0
    }
}

/// How long a poll that starts at `now` sleeps, when the previous one ended at `last`.
pub fn pacing_delay(last: u64, now: u64) -> (r: u64)
    ensures
        r as int == pacing_delay_spec(last, now),
        r <= FRAME_INTERVAL_NANOS,
{
    let elapsed: u64 = if now >= last {
        now - last
    } else {
        0
    };
    if elapsed < FRAME_INTERVAL_NANOS {
        FRAME_INTERVAL_NANOS - elapsed
    } else {
        0
    }
}

} // verus!
