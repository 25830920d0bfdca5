//! Time values exchanged by `get_time`.
use vstd::prelude::*;

use crate::config::MICRO_PER_SEC;

verus! {

/// A time with microsecond precision.
#[derive(Copy, Clone, PartialEq, Eq, Structural, PartialOrd, Ord, Debug)]
pub struct TimeVal {
    pub sec: usize,
    pub usec: usize,
}

/// The number of microseconds a time stands for.
pub open spec fn total_micros(t: TimeVal) -> int {
    t.sec * MICRO_PER_SEC + t.usec
}

/// The time `secs` seconds and `subsec_micros` microseconds after `t`,
/// with the microseconds carried into the seconds.
pub open spec fn time_after(t: TimeVal, secs: u64, subsec_micros: u32) -> TimeVal {
    TimeVal {
        sec: (t.sec + (t.usec + subsec_micros) / (MICRO_PER_SEC as int) + secs) as usize,
        usec: ((t.usec + subsec_micros) % (MICRO_PER_SEC as int)) as usize,
    }
}

impl Default for TimeVal {
    /// The zero time.
    fn default() -> (t: Self)
        ensures
            t.sec == 0,
            t.usec == 0,
    {
        TimeVal { sec: 0, usec: 0 }
    }
}

impl TimeVal {
    /// The time `sec` seconds and `usec` microseconds.
    pub fn new(sec: usize, usec: usize) -> (t: Self)
        ensures
            t.sec == sec,
            t.usec == usec,
    {
        Self { sec, usec }
    }

    /// The time `secs` seconds and `subsec_micros` microseconds after `self`
    /// (the whole seconds and the microsecond part of a duration): the
    /// microseconds carry into the seconds.
    pub fn add(self, secs: u64, subsec_micros: u32) -> (t: Self)
        requires
            subsec_micros < MICRO_PER_SEC,
            secs <= usize::MAX,
            self.usec + subsec_micros <= usize::MAX,
            self.sec + (self.usec + subsec_micros) / (MICRO_PER_SEC as int) + secs <= usize::MAX,
        ensures
            t == time_after(self, secs, subsec_micros),
    {
        let usec = self.usec + (subsec_micros as usize);
        let sec = self.sec + (usec / MICRO_PER_SEC) + (secs as usize);
        let usec = usec % MICRO_PER_SEC;
        Self { sec, usec }
    }
}

/// Law: the sum is normalised (fewer than a million microseconds) and stands
/// for the sum of the microsecond counts, whatever the microseconds of `t`.
pub proof fn lemma_add_is_sum(t: TimeVal, secs: u64, subsec_micros: u32)
    requires
        subsec_micros < MICRO_PER_SEC,
        t.sec + (t.usec + subsec_micros) / (MICRO_PER_SEC as int) + secs <= usize::MAX,
    ensures
        time_after(t, secs, subsec_micros).usec < MICRO_PER_SEC,
        total_micros(time_after(t, secs, subsec_micros)) == total_micros(t) + secs * MICRO_PER_SEC
            + subsec_micros,
{
    let r = time_after(t, secs, subsec_micros);
    let m = MICRO_PER_SEC as int;
    let s = t.usec + subsec_micros;
    vstd::arithmetic::div_mod::lemma_fundamental_div_mod(s, m);
    assert(r.sec * m == t.sec * m + (s / m) * m + secs * m) by (nonlinear_arith)
        requires
            r.sec == t.sec + s / m + secs,
    ;
}

} // verus!
