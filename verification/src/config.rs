//! Layout and timing constants shared by the kernel's modules.
use vstd::prelude::*;

verus! {

/// Size of each application's user stack, in bytes.
pub const USER_STACK_SIZE: usize = 8192;

/// Size of each application's kernel stack, in bytes.
pub const KERNEL_STACK_SIZE: usize = 8192;

/// Largest number of applications the kernel can hold.
pub const MAX_APP_NUM: usize = 16;

/// Address at which the first application is loaded.
pub const APP_BASE_ADDRESS: usize = 0x80400000;

/// Largest size of one loaded application, in bytes.
pub const APP_SIZE_LIMIT: usize = 0x20000;

/// Frequency of the `mtime` clock on the QEMU `virt` machine, in ticks per second.
pub const CLOCK_FREQ: usize = 12500000;

/// Number of timer interrupts per second.
pub const TICKS_PER_SEC: usize = 100;

/// Microseconds per second.
pub const MICRO_PER_SEC: usize = 1_000_000;

} // verus!
