//! Inter-process communication: the system-call interface.

pub mod syscall;
