//! The kernel-mode register context of a task.
use vstd::prelude::*;

verus! {

/// Kernel-mode registers saved when a task is switched out: the return
/// address, the kernel stack pointer and the callee-saved registers `s0`..`s11`.
#[derive(Copy, Clone, Debug)]
pub struct TaskContext {
    pub ra: usize,
    pub sp: usize,
    pub s: [usize; 12],
}

/// True when every callee-saved register of `cx` is zero.
pub open spec fn saved_regs_zero(cx: TaskContext) -> bool {
    forall|i: int| 0 <= i < 12 ==> cx.s[i] == 0
}

impl TaskContext {
    /// A context whose registers are all zero.
    pub fn zero_init() -> (cx: Self)
        ensures
            cx.ra == 0,
            cx.sp == 0,
            saved_regs_zero(cx),
    {
        Self { ra: 0, sp: 0, s: [0; 12] }
    }

    /// The first context of an application: switching to it returns to
    /// `restore_addr` (the trap-return routine) with the kernel stack pointer
    /// at `trap_cx_addr`, where the application's initial trap context lies,
    /// so that the task enters user mode at once.
    pub fn new_with_app_context(restore_addr: usize, trap_cx_addr: usize) -> (cx: Self)
        ensures
            cx.ra == restore_addr,
            cx.sp == trap_cx_addr,
            saved_regs_zero(cx),
    {
        Self { ra: restore_addr, sp: trap_cx_addr, s: [0; 12] }
    }
}

} // verus!
