//! The tick scheduler's arithmetic.
//!
//! The loop around this crate measures how long one tick's work took and
//! sleeps away the remainder of the tick budget. Measuring and sleeping are
//! the host's job; the remainder computation is verified here.

use vstd::prelude::*;

verus! {

/// The sleep owed after a tick: the unspent part of the budget, and zero
/// once the work overran it (an overrun is never carried into later ticks).
pub open spec fn remaining_delay_spec(elapsed_millis: u64, interval_millis: u64) -> u64 {
    if elapsed_millis < interval_millis {
        (interval_millis - elapsed_millis) as u64
    } else {
        0
    }
}

/// How long to sleep before the next tick, given the elapsed work time and
/// the tick budget, both in milliseconds.
pub fn remaining_delay(elapsed_millis: u64, interval_millis: u64) -> (r: u64)
    ensures
        r == remaining_delay_spec(elapsed_millis, interval_millis),
        elapsed_millis + r >= interval_millis,
        r <= interval_millis,
{
    if elapsed_millis < interval_millis {
        interval_millis - elapsed_millis
    } else {
        0
    }
}

} // verus!
