//! The application side of the system-call interface.

pub mod process;
pub mod sys;
pub mod sys_call;
