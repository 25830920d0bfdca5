//! The user-mode register context saved on a trap.
use vstd::prelude::*;

verus! {

/// The `sstatus` value `bits` with the previous-privilege bit (`SPP`, bit 8)
/// cleared, so that `sret` returns to user mode; every other bit is kept.
pub open spec fn user_mode_sstatus(bits: usize) -> usize {
    bits & !0x100usize
}

/// Clearing `SPP` changes bit 8 alone: it is zero afterwards, and every other
/// bit of `bits` is what it was.
pub proof fn lemma_user_mode_sstatus_bits(bits: usize)
    ensures
        user_mode_sstatus(bits) & 0x100usize == 0,
        user_mode_sstatus(bits) | (bits & 0x100usize) == bits,
{
    assert((bits & !0x100usize) & 0x100usize == 0) by (bit_vector);
    assert((bits & !0x100usize) | (bits & 0x100usize) == bits) by (bit_vector);
}

/// Registers of a user program saved when it traps into the kernel.
#[derive(Copy, Clone, Debug)]
pub struct TrapContext {
    /// The general-purpose registers `x0`..`x31`.
    pub x: [usize; 32],
    /// The `sstatus` register: privilege level before the trap and after its return.
    pub sstatus: usize,
    /// The `sepc` register: where the program continues after the trap.
    pub sepc: usize,
}

impl TrapContext {
    /// Sets the stack pointer (`x2`).
    pub fn set_sp(&mut self, sp: usize)
        ensures
            final(self).x@ == old(self).x@.update(2, sp),
            final(self).sstatus == old(self).sstatus,
            final(self).sepc == old(self).sepc,
    {
        self.x[2] = sp;
    }

    /// The context in which an application starts: it returns to user mode
    /// (from the current `sstatus` value `sstatus_bits`) at `entry`, with
    /// stack pointer `sp` and every other register zero.
    pub fn new_app_init(entry: usize, sp: usize, sstatus_bits: usize) -> (cx: Self)
        ensures
            cx.x@ == Seq::new(32, |i: int| if i == 2 { sp } else { 0usize }),
            cx.sstatus == user_mode_sstatus(sstatus_bits),
            cx.sepc == entry,
    {
        let sstatus = sstatus_bits & !0x100usize;
        let mut cx = Self { x: [0; 32], sstatus, sepc: entry };
        cx.set_sp(sp);
        proof {
            assert(cx.x@ =~= Seq::new(32, |i: int| if i == 2 { sp } else { 0usize }));
        }
        cx
    }

    /// Puts a system call's return value into `a0` (`x10`).
    pub fn set_syscall_result(&mut self, ret: isize)
        ensures
            final(self).x@ == old(self).x@.update(10, ret as usize),
            final(self).sstatus == old(self).sstatus,
            final(self).sepc == old(self).sepc,
    {
        self.x[10] = ret as usize;
    }
}

} // verus!
