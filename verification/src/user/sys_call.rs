//! How an application puts a system call into registers.
use vstd::prelude::*;

use crate::abi::{SyscallFrame, SYSCALL_EXIT, SYSCALL_WRITE, SYSCALL_YIELD, SYS_GET_TIME};

verus! {

/// The application's system-call entry: each call builds the registers
/// that the `ecall` instruction hands to the kernel.
pub struct SysCall;

impl crate::abi::SysCall for SysCall {
    /// The registers of system call `id` with arguments `args`.
    fn syscall(id: usize, args: [usize; 3]) -> (f: SyscallFrame) {
        SyscallFrame { id, args }
    }

    /// `write` of the `len` bytes at address `buf` to file `fd`.
    fn sys_write(fd: usize, buf: usize, len: usize) -> (f: SyscallFrame) {
        Self::syscall(SYSCALL_WRITE, [fd, buf, len])
    }

    /// `exit` with code `xstate`.
    fn sys_exit(xstate: i32) -> (f: SyscallFrame) {
        Self::syscall(SYSCALL_EXIT, [xstate as usize, 0, 0])
    }

    /// `yield`.
    fn sys_yield() -> (f: SyscallFrame) {
        Self::syscall(SYSCALL_YIELD, [0, 0, 0])
    }

    /// `get_time` into the time value at address `ts`, in time zone `tz`.
    fn sys_get_time(ts: usize, tz: usize) -> (f: SyscallFrame) {
        Self::syscall(SYS_GET_TIME, [ts, tz, 0])
    }
}

} // verus!
