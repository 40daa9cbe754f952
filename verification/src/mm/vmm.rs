//! Virtual memory manager: page-fault classification and demand paging.
//!
//! A fault whose error code has the reserved bit or the present bit set is
//! fatal; any other fault is served by demand paging, which gives kernel
//! addresses above the first page a fresh physical page.
use vstd::prelude::*;

verus! {

/// Size of a page.
pub const PAGE_SIZE: usize = 4096;

/// The fault hit a present page (a protection violation).
pub const FAULT_PRESENT: u64 = 1;

/// The faulting access was a write.
pub const FAULT_WRITE: u64 = 2;

/// The faulting access came from user mode.
pub const FAULT_USER: u64 = 4;

/// A reserved bit was set in a page-table entry.
pub const FAULT_RESERVED: u64 = 8;

/// The faulting access was an instruction fetch.
pub const FAULT_INSTRUCTION: u64 = 16;

/// Counters of the virtual memory manager.
#[derive(Debug, Clone, Copy)]
pub struct VmmState {
    page_faults: usize,
    pages_allocated: usize,
}

/// The bits of a page-fault error code.
#[derive(Debug, Clone, Copy, PartialEq, Eq, Structural)]
pub struct FaultInfo {
    pub present: bool,
    pub write: bool,
    pub user: bool,
    pub reserved: bool,
    pub instruction: bool,
}

/// What to do about a page fault.
#[derive(Debug, Clone, Copy, PartialEq, Eq, Structural)]
pub enum FaultAction {
    /// A reserved bit was set: fatal.
    ReservedBitViolation,
    /// The page is present but the access is not allowed: fatal.
    ProtectionViolation,
    /// The page is missing: try to supply one.
    DemandPage,
}

/// The outcome of demand paging.
#[derive(Debug, Clone, Copy, PartialEq, Eq, Structural)]
pub enum DemandOutcome {
    /// User-mode faults are not served yet.
    UserFault,
    /// The fault hit the first page: a null-pointer dereference.
    NullPointer,
    /// No physical page was left.
    OutOfMemory,
    /// A physical page was obtained; `log` says whether to report it.
    Allocated { phys: usize, log: bool },
}

/// The bits of `error_code`.
pub open spec fn fault_info(error_code: u64) -> FaultInfo {
    FaultInfo {
        present: error_code & 1 != 0,
        write: error_code & 2 != 0,
        user: error_code & 4 != 0,
        reserved: error_code & 8 != 0,
        instruction: error_code & 16 != 0,
    }
}

/// What a fault with `error_code` calls for: a reserved-bit violation
/// outranks a protection violation; a fault on a missing page is served.
pub open spec fn fault_action(error_code: u64) -> FaultAction {
    if error_code & 8 != 0 {
        FaultAction::ReservedBitViolation
    } else if error_code & 1 != 0 {
        FaultAction::ProtectionViolation
    } else {
        FaultAction::DemandPage
    }
}

/// Whether the `n`-th event is reported: the first ten, then every thousandth.
pub open spec fn reported(n: usize) -> bool {
    n <= 10 || n % 1000 == 0
}

/// Decodes a page-fault error code.
pub fn decode_fault(error_code: u64) -> (r: FaultInfo)
    ensures
        r == fault_info(error_code),
        r.present == (error_code & 1 != 0),
        r.write == (error_code & 2 != 0),
        r.user == (error_code & 4 != 0),
        r.reserved == (error_code & 8 != 0),
        r.instruction == (error_code & 16 != 0),
{
    FaultInfo {
        present: (error_code & FAULT_PRESENT) != 0,
        write: (error_code & FAULT_WRITE) != 0,
        user: (error_code & FAULT_USER) != 0,
        reserved: (error_code & FAULT_RESERVED) != 0,
        instruction: (error_code & FAULT_INSTRUCTION) != 0,
    }
}

/// Decides what a fault with `error_code` calls for.
pub fn classify_fault(error_code: u64) -> (r: FaultAction)
    ensures
        r == fault_action(error_code),
        r == FaultAction::ReservedBitViolation <==> error_code & 8 != 0,
        r == FaultAction::ProtectionViolation <==> (error_code & 8 == 0 && error_code & 1 != 0),
        r == FaultAction::DemandPage <==> (error_code & 8 == 0 && error_code & 1 == 0),
{
    let info = decode_fault(error_code);
    if info.reserved {
        FaultAction::ReservedBitViolation
    } else if info.present {
        FaultAction::ProtectionViolation
    } else {
        FaultAction::DemandPage
    }
}

/// Whether the `n`-th fault or allocation is reported.
pub fn should_report(n: usize) -> (r: bool)
    ensures
        r == reported(n),
{
    n <= 10 || n % 1000 == 0
}

/// Whether demand paging for a fault at `fault_addr` wants a physical page:
/// kernel-mode faults above the first page do.
pub fn demand_page_wants_frame(fault_addr: usize, user: bool) -> (r: bool)
    ensures
        r == (!user && fault_addr >= 0x1000),
{
    !user && fault_addr >= 0x1000
}

impl VmmState {
    /// The number of page faults counted.
    pub closed spec fn faults(&self) -> usize {
        self.page_faults
    }

    /// The number of pages allocated on demand.
    pub closed spec fn allocated(&self) -> usize {
        self.pages_allocated
    }

    /// Both counters zero.
    pub fn new() -> (r: Self)
        ensures
            r.faults() == 0,
            r.allocated() == 0,
    {
        VmmState { page_faults: 0, pages_allocated: 0 }
    }

    /// Counts a page fault.
    pub fn count_fault(&mut self)
        requires
            old(self).faults() < usize::MAX,
        ensures
            final(self).faults() == old(self).faults() + 1,
            final(self).allocated() == old(self).allocated(),
    {
        self.page_faults = self.page_faults + 1;
    }

    /// Counts a page allocated on demand.
    pub fn count_page_alloc(&mut self)
        requires
            old(self).allocated() < usize::MAX,
        ensures
            final(self).allocated() == old(self).allocated() + 1,
            final(self).faults() == old(self).faults(),
    {
        self.pages_allocated = self.pages_allocated + 1;
    }

    /// Returns the fault count and the allocation count.
    pub fn get_stats(&self) -> (r: (usize, usize))
        ensures
            r == (self.faults(), self.allocated()),
    {
        (self.page_faults, self.pages_allocated)
    }

    /// Counts a page fault with `error_code` and decides what it calls for;
    /// also says whether this fault is to be reported.
    pub fn record_fault(&mut self, error_code: u64) -> (r: (FaultAction, bool))
        requires
            old(self).faults() < usize::MAX,
        ensures
            final(self).faults() == old(self).faults() + 1,
            final(self).allocated() == old(self).allocated(),
            r == (fault_action(error_code), reported(final(self).faults())),
    {
        self.count_fault();
        let log = should_report(self.page_faults);
        (classify_fault(error_code), log)
    }
}

/// Demand paging for a fault at `fault_addr`: user-mode faults are not
/// served and a fault on the first page is a null-pointer dereference;
/// otherwise `frame` is the physical page obtained for it, if any, which is
/// counted.
pub fn handle_demand_page(state: &mut VmmState, fault_addr: usize, write: bool, user: bool, frame: Option<usize>) -> (r: DemandOutcome)
    requires
        old(state).allocated() < usize::MAX,
    ensures
        user ==> r == DemandOutcome::UserFault && *final(state) == *old(state),
        !user && fault_addr < 0x1000 ==> r == DemandOutcome::NullPointer && *final(state) == *old(state),
        !user && fault_addr >= 0x1000 ==> match frame {
            Some(p) => {
                &&& final(state).allocated() == old(state).allocated() + 1
                &&& final(state).faults() == old(state).faults()
                &&& r == (DemandOutcome::Allocated { phys: p, log: reported(final(state).allocated()) })
            },
            None => r == DemandOutcome::OutOfMemory && *final(state) == *old(state),
        },
{
    if user {
        return DemandOutcome::UserFault;
    }
    if fault_addr < 0x1000 {
        return DemandOutcome::NullPointer;
    }
    match frame {
        Some(phys_addr) => {
            state.count_page_alloc();
            let log = should_report(state.pages_allocated);
            DemandOutcome::Allocated { phys: phys_addr, log }
        },
        None => DemandOutcome::OutOfMemory,
    }
}

/// Only faults on missing pages are served: a fault is served exactly when
/// neither the reserved bit nor the present bit of its error code is set.
pub proof fn lemma_only_missing_pages_served(error_code: u64)
    ensures
        fault_action(error_code) == FaultAction::DemandPage <==> (!fault_info(error_code).reserved
            && !fault_info(error_code).present),
{
}

/// What a fault calls for depends on two bits of its error code only: a
/// reserved-bit violation exactly when bit 3 is set, a protection violation
/// exactly when bit 3 is clear and bit 0 (present) is set, demand paging
/// when both are clear; the write, user and instruction bits never change
/// the class.
pub proof fn lemma_fault_classes(error_code: u64, other: u64)
    ensures
        fault_action(error_code) == FaultAction::ReservedBitViolation <==> error_code & 8 != 0,
        fault_action(error_code) == FaultAction::ProtectionViolation <==> (error_code & 8 == 0 && error_code & 1 != 0),
        fault_action(error_code) == FaultAction::DemandPage <==> (error_code & 8 == 0 && error_code & 1 == 0),
        (error_code & 9 == other & 9) ==> fault_action(error_code) == fault_action(other),
{
    assert((error_code & 9 == other & 9) ==> ((error_code & 8 == other & 8) && (error_code & 1 == other & 1)))
        by (bit_vector);
}

/// The error-code bits, one for each field of the decoded fault: present is
/// bit 0, write bit 1, user bit 2, reserved bit 3, instruction fetch bit 4.
pub proof fn lemma_fault_bits(error_code: u64)
    ensures
        fault_info(error_code).present == (error_code & 1 != 0),
        fault_info(error_code).write == (error_code & 2 != 0),
        fault_info(error_code).user == (error_code & 4 != 0),
        fault_info(error_code).reserved == (error_code & 8 != 0),
        fault_info(error_code).instruction == (error_code & 16 != 0),
{
}

/// Which faults and allocations are reported: the first ten, then one in
/// a thousand.
pub proof fn lemma_reporting_schedule(n: usize)
    ensures
        1 <= n <= 10 ==> reported(n),
        n % 1000 == 0 ==> reported(n),
        n > 10 && n % 1000 != 0 ==> !reported(n),
{
}

} // verus!
