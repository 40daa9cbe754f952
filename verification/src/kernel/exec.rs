//! Executable loading: the ELF64 format and the plan for mapping a program
//! into a user address space.

pub mod elf;
pub mod loader;
