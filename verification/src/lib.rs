//! Core logic of a small x86_64 hobby kernel: the in-memory file systems,
//! open-file bookkeeping, the round-robin scheduler, the ATA PIO protocol
//! arithmetic, ELF loading plans, page-table copy plans, page-fault
//! classification and the system-call results.
use vstd::prelude::*;

pub mod consts;
pub mod error;
pub mod fs;

pub mod kernel;
pub mod drivers;
pub mod regs;
pub mod mm;
pub mod ipc;
pub mod arch;
