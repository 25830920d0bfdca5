//! The kernel's system calls.
use vstd::prelude::*;

pub mod fs;
pub mod process;

use crate::abi::process::TimeVal;
use crate::abi::{decode_syscall, spec_decode, SyscallRequest, FD_STDOUT};
use crate::config::MICRO_PER_SEC;
use crate::task::manager::{switch_to, TaskManager, TaskSwitch};
use crate::task::TaskStatus;
use fs::{lossy_pieces, sys_write, Piece};
use process::{sys_exit, sys_get_time, sys_yield};

verus! {

/// What the kernel must do to carry out a system call.
#[derive(Debug)]
pub enum SyscallEffect {
    /// Print `pieces` (text of the written buffer, and replacement markers);
    /// the call returns `ret`.
    Print { pieces: Vec<Piece>, ret: isize },
    /// Switch tasks as `switch` says; the call returns `ret` once the
    /// calling task runs again.
    Switch { ret: isize, switch: TaskSwitch },
    /// Store `time` at address `addr`; the call returns `ret`.
    StoreTime { addr: usize, time: TimeVal, ret: isize },
}

/// A system call the kernel can carry out for the current task of a
/// manager in state `v`: its number is known, a write goes to standard
/// output and names exactly `buffer_len` bytes, a `get_time` names a
/// non-null time value, and after an exit or a yield some application is
/// ready to run.
pub open spec fn syscall_allowed(
    req: SyscallRequest,
    v: crate::task::manager::TaskManagerView,
    buffer_len: nat,
) -> bool {
    match req {
        SyscallRequest::Write { fd, len, .. } => fd == FD_STDOUT && len == buffer_len,
        SyscallRequest::Exit { .. } => v.with_status(v.current as int, TaskStatus::Exited).next_task() is Some,
        SyscallRequest::Yield => v.with_status(v.current as int, TaskStatus::Suspended).next_task() is Some,
        SyscallRequest::GetTime { ts, .. } => ts != 0,
        SyscallRequest::Unsupported { .. } => false,
    }
}

/// The kernel's system-call entry.
pub struct SysCall;

impl SysCall {
    /// Carries out system call `syscall_id` with arguments `args` for the
    /// current task of `manager`. For `write`, `buffer` holds the bytes the
    /// call names; `time_us` is the current time in microseconds.
    pub fn syscall(
        manager: &mut TaskManager,
        syscall_id: usize,
        args: [usize; 3],
        buffer: &[u8],
        time_us: usize,
    ) -> (r: SyscallEffect)
        requires
            old(manager).wf(),
            syscall_allowed(spec_decode(syscall_id, args@), old(manager)@, buffer@.len()),
        ensures
            final(manager).wf(),
            final(manager).contexts() == old(manager).contexts(),
            match spec_decode(syscall_id, args@) {
                SyscallRequest::Write { .. } => {
                    &&& final(manager)@ == old(manager)@
                    &&& r matches SyscallEffect::Print { pieces, ret }
                    &&& pieces@ == lossy_pieces(buffer@, 0)
                    &&& ret == buffer@.len() as isize
                },
                SyscallRequest::Exit { .. } => {
                    &&& final(manager)@ == old(manager)@.exit_and_run_next()
                    &&& r == (SyscallEffect::Switch {
                        ret: 0,
                        switch: switch_to(old(manager)@.current, old(manager)@.with_status(old(manager)@.current as int, TaskStatus::Exited).next_task()),
                    })
                },
                SyscallRequest::Yield => {
                    &&& final(manager)@ == old(manager)@.suspend_and_run_next()
                    &&& r == (SyscallEffect::Switch {
                        ret: 0,
                        switch: switch_to(old(manager)@.current, old(manager)@.with_status(old(manager)@.current as int, TaskStatus::Suspended).next_task()),
                    })
                },
                SyscallRequest::GetTime { ts, .. } => {
                    &&& final(manager)@ == old(manager)@
                    &&& r == (SyscallEffect::StoreTime {
                        addr: ts,
                        time: TimeVal { sec: time_us / MICRO_PER_SEC, usec: time_us % MICRO_PER_SEC },
                        ret: 0,
                    })
                },
                SyscallRequest::Unsupported { .. } => false,
            },
    {
        match decode_syscall(syscall_id, args) {
            SyscallRequest::Write { fd, .. } => {
                let (pieces, ret) = sys_write(fd, buffer);
                SyscallEffect::Print { pieces, ret }
            },
            SyscallRequest::Exit { exit_code } => {
                let (ret, switch) = sys_exit(manager, exit_code);
                SyscallEffect::Switch { ret, switch }
            },
            SyscallRequest::Yield => {
                let (ret, switch) = sys_yield(manager);
                SyscallEffect::Switch { ret, switch }
            },
            SyscallRequest::GetTime { ts, tz } => {
                let mut time = TimeVal::new(0, 0);
                let ret = sys_get_time(&mut time, tz, time_us);
                SyscallEffect::StoreTime { addr: ts, time, ret }
            },
            SyscallRequest::Unsupported { .. } => {
                proof {
                    assert(false);
                }
                SyscallEffect::StoreTime { addr: 0, time: TimeVal::new(0, 0), ret: 0 }
            },
        }
    }
}

} // verus!
