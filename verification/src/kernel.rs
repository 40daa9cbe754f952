//! Tasks and their scheduling.

pub mod task;
pub mod id_allocator;
pub mod scheduler;
pub mod exec;
