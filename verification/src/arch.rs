//! Architecture details: entering user mode and switching address spaces.

pub mod userspace;
