//! The system-call interface shared by the kernel and the applications:
//! call numbers, the register frame of a call, and how a frame encodes a request.
use vstd::prelude::*;

pub mod process;

verus! {

/// Call number of `write`.
pub const SYSCALL_WRITE: usize = 64;

/// Call number of `exit`.
pub const SYSCALL_EXIT: usize = 93;

/// Call number of `yield`.
pub const SYSCALL_YIELD: usize = 124;

/// Call number of `get_time`.
pub const SYS_GET_TIME: usize = 169;

/// File descriptor of standard output.
pub const FD_STDOUT: usize = 1;

/// The registers of a system call: the call number (`a7`) and three arguments (`a0`..`a2`).
#[derive(Copy, Clone, PartialEq, Eq, Debug)]
pub struct SyscallFrame {
    pub id: usize,
    pub args: [usize; 3],
}

/// A decoded system call.
#[derive(Copy, Clone, PartialEq, Eq, Structural, Debug)]
pub enum SyscallRequest {
    /// Write `len` bytes starting at address `buf` to file `fd`.
    Write { fd: usize, buf: usize, len: usize },
    /// End the calling application with `exit_code`.
    Exit { exit_code: i32 },
    /// Give the processor to another application.
    Yield,
    /// Store the current time at address `ts`; `tz` is ignored.
    GetTime { ts: usize, tz: usize },
    /// A call number the kernel does not know.
    Unsupported { id: usize },
}

/// The request a frame encodes.
pub open spec fn spec_decode(id: usize, args: Seq<usize>) -> SyscallRequest {
    if id == SYSCALL_WRITE {
        SyscallRequest::Write { fd: args[0], buf: args[1], len: args[2] }
    } else if id == SYSCALL_EXIT {
        SyscallRequest::Exit { exit_code: args[0] as i32 }
    } else if id == SYSCALL_YIELD {
        SyscallRequest::Yield
    } else if id == SYS_GET_TIME {
        SyscallRequest::GetTime { ts: args[0], tz: args[1] }
    } else {
        SyscallRequest::Unsupported { id }
    }
}

/// Decodes the registers of a system call into a request (kernel side).
pub fn decode_syscall(id: usize, args: [usize; 3]) -> (r: SyscallRequest)
    ensures
        r == spec_decode(id, args@),
{
    if id == SYSCALL_WRITE {
        SyscallRequest::Write { fd: args[0], buf: args[1], len: args[2] }
    } else if id == SYSCALL_EXIT {
        SyscallRequest::Exit { exit_code: args[0] as i32 }
    } else if id == SYSCALL_YIELD {
        SyscallRequest::Yield
    } else if id == SYS_GET_TIME {
        SyscallRequest::GetTime { ts: args[0], tz: args[1] }
    } else {
        SyscallRequest::Unsupported { id }
    }
}

/// The frame in which an application makes the request `req`: the call
/// number and the arguments in order, unused arguments zero, the exit code
/// sign-extended.
pub open spec fn spec_encode(req: SyscallRequest) -> (usize, Seq<usize>) {
    match req {
        SyscallRequest::Write { fd, buf, len } => (SYSCALL_WRITE, seq![fd, buf, len]),
        SyscallRequest::Exit { exit_code } => (SYSCALL_EXIT, seq![exit_code as usize, 0usize, 0usize]),
        SyscallRequest::Yield => (SYSCALL_YIELD, seq![0usize, 0usize, 0usize]),
        SyscallRequest::GetTime { ts, tz } => (SYS_GET_TIME, seq![ts, tz, 0usize]),
        SyscallRequest::Unsupported { id } => (id, seq![0usize, 0usize, 0usize]),
    }
}

/// A request the kernel can tell from the others: an unknown call number
/// must not be one of the known ones.
pub open spec fn is_encodable(req: SyscallRequest) -> bool {
    req matches SyscallRequest::Unsupported { id } ==> id != SYSCALL_WRITE && id != SYSCALL_EXIT
        && id != SYSCALL_YIELD && id != SYS_GET_TIME
}

/// The system calls as both sides see them. An implementation puts each
/// call into registers; the contract fixes the frame of every call.
pub trait SysCall {
    /// System call `id` with arguments `args`.
    fn syscall(id: usize, args: [usize; 3]) -> (f: SyscallFrame)
        ensures
            f.id == id,
            f.args == args,
    ;

    /// `write` of the `len` bytes at address `buf` to file `fd`; the call
    /// returns the number of bytes written.
    fn sys_write(fd: usize, buf: usize, len: usize) -> (f: SyscallFrame)
        ensures
            (f.id, f.args@) == spec_encode(SyscallRequest::Write { fd, buf, len }),
    ;

    /// `exit` with code `xstate`; it does not return.
    fn sys_exit(xstate: i32) -> (f: SyscallFrame)
        ensures
            (f.id, f.args@) == spec_encode(SyscallRequest::Exit { exit_code: xstate }),
    ;

    /// `yield`: give the processor to another application; the call returns 0.
    fn sys_yield() -> (f: SyscallFrame)
        ensures
            (f.id, f.args@) == spec_encode(SyscallRequest::Yield),
    ;

    /// `get_time` into the time value at address `ts`; `tz` is ignored. The
    /// call returns 0 on success.
    fn sys_get_time(ts: usize, tz: usize) -> (f: SyscallFrame)
        ensures
            (f.id, f.args@) == spec_encode(SyscallRequest::GetTime { ts, tz }),
    ;
}

/// An exit code survives the trip through a register.
proof fn lemma_exit_code_round_trip(code: i32)
    ensures
        (code as usize) as i32 == code,
{
    assert((code as usize) as i32 == code) by (bit_vector);
}

/// Law: the kernel decodes every frame an application encodes back into the
/// request the application made.
pub proof fn lemma_decode_inverts_encode(req: SyscallRequest)
    requires
        is_encodable(req),
    ensures
        spec_decode(spec_encode(req).0, spec_encode(req).1) == req,
{
    if let SyscallRequest::Exit { exit_code } = req {
        lemma_exit_code_round_trip(exit_code);
    }
}

} // verus!
