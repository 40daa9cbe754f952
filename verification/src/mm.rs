//! Memory management: page-fault handling decisions and page-table copy plans.

pub mod vmm;
pub mod page_tables;
