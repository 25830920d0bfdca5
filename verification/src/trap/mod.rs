//! Trap handling decisions: what a trap's cause asks the kernel to do.
use vstd::prelude::*;

pub mod context;

use crate::abi::{decode_syscall, spec_decode, SyscallRequest};
use context::TrapContext;

verus! {

/// Exception code of an environment call from user mode.
pub const EXC_USER_ENV_CALL: usize = 8;

/// Exception code of an illegal instruction.
pub const EXC_ILLEGAL_INSTRUCTION: usize = 2;

/// Exception code of a store access fault.
pub const EXC_STORE_FAULT: usize = 7;

/// Exception code of a store page fault.
pub const EXC_STORE_PAGE_FAULT: usize = 15;

/// Interrupt code of the supervisor timer.
pub const INT_SUPERVISOR_TIMER: usize = 5;

/// The interrupt flag of an `scause` value: its most significant bit.
pub open spec fn scause_is_interrupt(bits: usize) -> bool {
    bits > usize::MAX / 2
}

/// The cause code of an `scause` value: every bit but the most significant one.
pub open spec fn scause_code(bits: usize) -> usize {
    ((bits as int) % (usize::MAX as int / 2 + 1)) as usize
}

/// Law: an `scause` value below the top bit is an exception with the value
/// as its code; one with the top bit set is an interrupt whose code is the
/// value without that bit.
pub proof fn lemma_scause_fields(bits: usize)
    ensures
        bits <= usize::MAX / 2 ==> !scause_is_interrupt(bits) && scause_code(bits) == bits,
        bits > usize::MAX / 2 ==> scause_is_interrupt(bits) && scause_code(bits) == bits - (
        usize::MAX / 2 + 1),
{
    let m = usize::MAX as int / 2 + 1;
    assert(usize::MAX as int == 2 * m - 1);
    if bits <= usize::MAX / 2 {
        vstd::arithmetic::div_mod::lemma_small_mod(bits as nat, m as nat);
    } else {
        vstd::arithmetic::div_mod::lemma_fundamental_div_mod_converse(bits as int, m, 1, bits - m);
    }
}

/// `riscv`'s `Scause::from_bits(bits).cause()`, with its two variants told
/// apart. In the source the interrupt flag is the top bit of `bits` and the
/// code is the remaining bits; this is what the contract claims.
#[verifier::external_body]
fn scause_cause(bits: usize) -> (r: (bool, usize))
    ensures
        r.0 == scause_is_interrupt(bits),
        r.1 == scause_code(bits),
{
    match riscv::register::scause::Scause::from_bits(bits).cause() {
        riscv::interrupt::Trap::Interrupt(code) => (true, code),
        riscv::interrupt::Trap::Exception(code) => (false, code),
    }
}

/// Why the processor trapped into the kernel.
#[derive(Copy, Clone, PartialEq, Eq, Structural, Debug)]
pub enum TrapCause {
    /// The application made a system call.
    UserEnvCall,
    /// A store access fault.
    StoreFault,
    /// A store page fault.
    StorePageFault,
    /// An illegal instruction.
    IllegalInstruction,
    /// The supervisor timer fired.
    SupervisorTimer,
    /// Any other interrupt or exception, by its code.
    Other { interrupt: bool, code: usize },
}

/// The cause an `scause` value records.
pub open spec fn spec_trap_cause(bits: usize) -> TrapCause {
    let interrupt = scause_is_interrupt(bits);
    let code = scause_code(bits);
    if !interrupt && code == EXC_USER_ENV_CALL {
        TrapCause::UserEnvCall
    } else if !interrupt && code == EXC_STORE_FAULT {
        TrapCause::StoreFault
    } else if !interrupt && code == EXC_STORE_PAGE_FAULT {
        TrapCause::StorePageFault
    } else if !interrupt && code == EXC_ILLEGAL_INSTRUCTION {
        TrapCause::IllegalInstruction
    } else if interrupt && code == INT_SUPERVISOR_TIMER {
        TrapCause::SupervisorTimer
    } else {
        TrapCause::Other { interrupt, code }
    }
}

/// Decodes an `scause` value.
pub fn trap_cause(scause: usize) -> (c: TrapCause)
    ensures
        c == spec_trap_cause(scause),
{
    let (interrupt, code) = scause_cause(scause);
    if !interrupt && code == EXC_USER_ENV_CALL {
        TrapCause::UserEnvCall
    } else if !interrupt && code == EXC_STORE_FAULT {
        TrapCause::StoreFault
    } else if !interrupt && code == EXC_STORE_PAGE_FAULT {
        TrapCause::StorePageFault
    } else if !interrupt && code == EXC_ILLEGAL_INSTRUCTION {
        TrapCause::IllegalInstruction
    } else if interrupt && code == INT_SUPERVISOR_TIMER {
        TrapCause::SupervisorTimer
    } else {
        TrapCause::Other { interrupt, code }
    }
}

/// What the kernel must do about a trap.
#[derive(Copy, Clone, PartialEq, Eq, Structural, Debug)]
pub enum TrapAction {
    /// Carry out the system call, then store its result with
    /// [`TrapContext::set_syscall_result`] and return to the application.
    Syscall(SyscallRequest),
    /// Arm the next timer interrupt and give the processor to the next task.
    TimerTick,
}

/// A trap the kernel handles: a system call or a timer interrupt. Faults
/// and every other cause end the kernel instead.
pub open spec fn trap_handled(scause: usize) -> bool {
    spec_trap_cause(scause) == TrapCause::UserEnvCall || spec_trap_cause(scause)
        == TrapCause::SupervisorTimer
}

/// Handles a trap with cause register `scause` (a system call or a timer
/// interrupt) from the application whose registers are `cx`. For a system
/// call the application resumes after its `ecall` instruction (`sepc`
/// advances by 4) and the call, read from `a7` and `a0`..`a2`, is returned;
/// a timer interrupt leaves the context unchanged.
pub fn trap_handler(cx: &mut TrapContext, scause: usize) -> (a: TrapAction)
    requires
        trap_handled(scause),
        spec_trap_cause(scause) == TrapCause::UserEnvCall ==> old(cx).sepc + 4 <= usize::MAX,
    ensures
        final(cx).x == old(cx).x,
        final(cx).sstatus == old(cx).sstatus,
        spec_trap_cause(scause) == TrapCause::UserEnvCall ==> {
            &&& a == TrapAction::Syscall(
                spec_decode(old(cx).x[17], seq![old(cx).x[10], old(cx).x[11], old(cx).x[12]]),
            )
            &&& final(cx).sepc == old(cx).sepc + 4
        },
        spec_trap_cause(scause) == TrapCause::SupervisorTimer ==> {
            &&& a == TrapAction::TimerTick
            &&& final(cx).sepc == old(cx).sepc
        },
{
    let cause = trap_cause(scause);
    if cause == TrapCause::UserEnvCall {
        cx.sepc = cx.sepc + 4;
        let req = decode_syscall(cx.x[17], [cx.x[10], cx.x[11], cx.x[12]]);
        proof {
            assert(seq![cx.x[10], cx.x[11], cx.x[12]] =~= [cx.x[10], cx.x[11], cx.x[12]]@);
        }
        TrapAction::Syscall(req)
    } else {
        TrapAction::TimerTick
    }
}

} // verus!
