//! The process-related system calls.
use vstd::prelude::*;

use crate::abi::process::{total_micros, TimeVal};
use crate::config::MICRO_PER_SEC;
use crate::task::manager::{switch_to, TaskManager, TaskSwitch};
use crate::task::{exit_current_and_run_next, suspend_current_and_run_next, TaskStatus};

verus! {

/// `exit`: the current task of `manager` exits and the next task is chosen.
/// Returns the call's result (0) and the switch to perform.
pub fn sys_exit(manager: &mut TaskManager, exit_code: i32) -> (r: (isize, TaskSwitch))
    requires
        old(manager).wf(),
        old(manager)@.with_status(old(manager)@.current as int, TaskStatus::Exited).next_task() is Some,
    ensures
        final(manager).wf(),
        final(manager)@ == old(manager)@.exit_and_run_next(),
        final(manager).contexts() == old(manager).contexts(),
        r.0 == 0,
        r.1 == switch_to(old(manager)@.current, old(manager)@.with_status(old(manager)@.current as int, TaskStatus::Exited).next_task()),
{
    let switch = exit_current_and_run_next(manager);
    (0, switch)
}

/// `yield`: the current task of `manager` gives up the processor and the
/// next task is chosen. Returns the call's result (0) and the switch to perform.
pub fn sys_yield(manager: &mut TaskManager) -> (r: (isize, TaskSwitch))
    requires
        old(manager).wf(),
        old(manager)@.with_status(old(manager)@.current as int, TaskStatus::Suspended).next_task() is Some,
    ensures
        final(manager).wf(),
        final(manager)@ == old(manager)@.suspend_and_run_next(),
        final(manager).contexts() == old(manager).contexts(),
        r.0 == 0,
        r.1 == switch_to(old(manager)@.current, old(manager)@.with_status(old(manager)@.current as int, TaskStatus::Suspended).next_task()),
{
    let switch = suspend_current_and_run_next(manager);
    (0, switch)
}

/// `get_time`: stores the time `time_us` (microseconds since boot) into
/// `ts` as seconds and microseconds; `_tz` is ignored. Returns 0.
pub fn sys_get_time(ts: &mut TimeVal, _tz: usize, time_us: usize) -> (r: isize)
    ensures
        final(ts).sec == time_us / MICRO_PER_SEC,
        final(ts).usec == time_us % MICRO_PER_SEC,
        r == 0,
{
    ts.sec = time_us / MICRO_PER_SEC;
    ts.usec = time_us % MICRO_PER_SEC;
    0
}

/// Law: the time `get_time` stores is normalised and stands for exactly the
/// microseconds it was given.
pub proof fn lemma_get_time_exact(time_us: usize)
    ensures
        (time_us % MICRO_PER_SEC) < MICRO_PER_SEC,
        total_micros(TimeVal { sec: time_us / MICRO_PER_SEC, usec: time_us % MICRO_PER_SEC })
            == time_us,
{
    vstd::arithmetic::div_mod::lemma_fundamental_div_mod(time_us as int, MICRO_PER_SEC as int);
}

} // verus!
