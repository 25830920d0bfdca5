//! Clock arithmetic: timer deadlines and conversion of clock ticks to time.
use vstd::prelude::*;

use crate::config::{CLOCK_FREQ, MICRO_PER_SEC, TICKS_PER_SEC};

verus! {

/// The deadline of the next timer interrupt when the clock reads `now`: one
/// time slice (a `TICKS_PER_SEC`-th of a second) later.
pub fn set_next_trigger(now: usize) -> (deadline: usize)
    requires
        now + CLOCK_FREQ / TICKS_PER_SEC <= usize::MAX,
    ensures
        deadline == now + CLOCK_FREQ / TICKS_PER_SEC,
{
    now + CLOCK_FREQ / TICKS_PER_SEC
}

/// The time in microseconds when the clock reads `ticks`.
pub open spec fn ticks_to_us(ticks: int) -> int {
    ticks * MICRO_PER_SEC / (CLOCK_FREQ as int)
}

/// The time in microseconds when the clock reads `ticks`: the ticks scaled
/// from the clock's frequency to a million per second, rounded down.
pub fn get_time_us(ticks: usize) -> (us: usize)
    ensures
        us == ticks_to_us(ticks as int),
{
    let scaled: u128 = (ticks as u128) * (MICRO_PER_SEC as u128);
    let us: u128 = scaled / (CLOCK_FREQ as u128);
    assert(us <= ticks);
    us as usize
}

/// Law: the time in microseconds never runs backwards while the clock
/// advances, and one second of ticks is a million microseconds.
pub proof fn lemma_time_us_monotonic(t1: int, t2: int)
    requires
        0 <= t1 <= t2,
    ensures
        ticks_to_us(t1) <= ticks_to_us(t2),
        ticks_to_us(CLOCK_FREQ as int) == MICRO_PER_SEC,
{
    vstd::arithmetic::div_mod::lemma_div_is_ordered(
        t1 * (MICRO_PER_SEC as int),
        t2 * (MICRO_PER_SEC as int),
        CLOCK_FREQ as int,
    );
}

} // verus!
