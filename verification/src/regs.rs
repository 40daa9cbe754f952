//! Saved processor registers.
use vstd::prelude::*;

verus! {

/// Register state pushed on the kernel stack on a system call or interrupt.
#[derive(Debug, Default, Clone, Copy)]
pub struct PtRegs {
    // General-purpose registers pushed by the entry code.
    pub r15: u64,
    pub r14: u64,
    pub r13: u64,
    pub r12: u64,
    pub rbp: u64,
    pub rbx: u64,
    pub r11: u64,
    pub r10: u64,
    pub r9: u64,
    pub r8: u64,
    pub rdi: u64,
    pub rsi: u64,
    pub rdx: u64,
    pub rcx: u64,
    pub rax: u64,
    /// Error code (a dummy for system calls, real for some exceptions).
    pub error_code: u64,
    // Pushed by the processor on an interrupt.
    pub rip: u64,
    pub cs: u64,
    pub rflags: u64,
    pub rsp: u64,
    pub ss: u64,
}

/// Whether every register of `r` is zero.
pub open spec fn all_zero(r: PtRegs) -> bool {
    r.r15 == 0
        && r.r14 == 0
        && r.r13 == 0
        && r.r12 == 0
        && r.rbp == 0
        && r.rbx == 0
        && r.r11 == 0
        && r.r10 == 0
        && r.r9 == 0
        && r.r8 == 0
        && r.rdi == 0
        && r.rsi == 0
        && r.rdx == 0
        && r.rcx == 0
        && r.rax == 0
        && r.error_code == 0
        && r.rip == 0
        && r.cs == 0
        && r.rflags == 0
        && r.rsp == 0
        && r.ss == 0
}

impl PtRegs {
    /// A register state with every register zero.
    pub fn new() -> (r: Self)
        ensures
            all_zero(r),
    {
        PtRegs {
            r15: 0,
            r14: 0,
            r13: 0,
            r12: 0,
            rbp: 0,
            rbx: 0,
            r11: 0,
            r10: 0,
            r9: 0,
            r8: 0,
            rdi: 0,
            rsi: 0,
            rdx: 0,
            rcx: 0,
            rax: 0,
            error_code: 0,
            rip: 0,
            cs: 0,
            rflags: 0,
            rsp: 0,
            ss: 0,
        }
    }
}

} // verus!
