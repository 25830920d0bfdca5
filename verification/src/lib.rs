//! A small RISC-V teaching kernel: task scheduling, trap and system-call
//! decisions, application loading plans, and the user-side system-call ABI.
pub mod abi;
pub mod batch;
pub mod config;
pub mod loader;
pub mod sync;
pub mod syscall;
pub mod task;
pub mod timer;
pub mod trap;
pub mod user;
