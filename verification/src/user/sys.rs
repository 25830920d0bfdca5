//! The application library's system functions.
use vstd::prelude::*;

use super::sys_call::SysCall;
use crate::abi::process::TimeVal;
use crate::abi::{spec_encode, SysCall as _, SyscallFrame, SyscallRequest};

verus! {

/// The call that writes the `len` bytes at address `buf` to file `fd`.
pub fn write(fd: usize, buf: usize, len: usize) -> (f: SyscallFrame)
    ensures
        (f.id, f.args@) == spec_encode(SyscallRequest::Write { fd, buf, len }),
{
    SysCall::sys_write(fd, buf, len)
}

/// The call that gives the processor to another application.
pub fn yield_() -> (f: SyscallFrame)
    ensures
        (f.id, f.args@) == spec_encode(SyscallRequest::Yield),
{
    SysCall::sys_yield()
}

/// The call that ends the application with `exit_code`.
pub fn exit(exit_code: i32) -> (f: SyscallFrame)
    ensures
        (f.id, f.args@) == spec_encode(SyscallRequest::Exit { exit_code }),
{
    SysCall::sys_exit(exit_code)
}

/// The outcome of `get_time`, given what the call returned (`ret`) and the
/// time value it filled in (`ts`): the time on success (0), the returned
/// code otherwise.
pub fn get_time(ret: isize, ts: TimeVal) -> (r: Result<TimeVal, isize>)
    ensures
        ret == 0 ==> r == Ok::<TimeVal, isize>(ts),
        ret != 0 ==> r == Err::<TimeVal, isize>(ret),
{
    if ret == 0 {
        Ok(ts)
    } else {
        Err(ret)
    }
}

} // verus!
