//! The values that enter user mode (ring 3) and that switch a task's
//! address space.
use vstd::prelude::*;
use crate::consts::USER_RFLAGS;

verus! {

/// The interrupt-return frame that starts user code at `rip` with stack
/// `rsp`, and the data segment selector to load.
#[derive(Debug, Clone, Copy, PartialEq, Eq, Structural)]
pub struct UserEntryFrame {
    pub ds: u16,
    pub ss: u64,
    pub rsp: u64,
    pub rflags: u64,
    pub cs: u64,
    pub rip: u64,
}

/// The frame that enters user mode with the given user data and code
/// segment selectors: both get requested privilege level 3, and interrupts
/// are enabled.
pub fn user_entry_frame(user_data: u16, user_code: u16, rip: u64, rsp: u64) -> (r: UserEntryFrame)
    ensures
        r == (UserEntryFrame {
            ds: user_data | 3,
            ss: (user_data | 3) as u64,
            rsp,
            rflags: 0x202,
            cs: (user_code | 3) as u64,
            rip,
        }),
{
    let ds = user_data | 3;
    UserEntryFrame { ds, ss: ds as u64, rsp, rflags: USER_RFLAGS, cs: (user_code | 3) as u64, rip }
}

/// Whether switching to a task whose top-level page table is at `task_cr3`
/// must reload CR3, whose frame starts at `current`.
pub fn needs_cr3_switch(current: u64, task_cr3: usize) -> (r: bool)
    ensures
        r == (current != task_cr3 as u64),
{
    current != task_cr3 as u64
}

} // verus!
