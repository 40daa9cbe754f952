//! Page tables of process address spaces.
//!
//! A table is 512 raw 64-bit entries. A new address space shares the kernel
//! mappings of the active one; forking deep-copies the user-accessible part
//! of an address space. The functions here compute the new tables and the
//! copy plans; the caller reads and writes physical memory.
use vstd::prelude::*;
use x86_64::structures::paging::PageTableFlags;

verus! {

/// Number of entries in a page table.
pub const ENTRY_COUNT: usize = 512;

/// The bits of an entry that hold the physical address.
pub const PHYS_ADDR_MASK: u64 = 0x000f_ffff_ffff_f000;

/// Number of level-3 entries (of 1 GiB each) that map the kernel.
pub const KERNEL_L3_ENTRIES: usize = 4;

/// The physical address an entry points to.
pub open spec fn entry_addr(e: u64) -> u64 {
    e & 0x000f_ffff_ffff_f000u64
}

/// The flag bits of an entry.
pub open spec fn entry_flags(e: u64) -> u64 {
    e & !0x000f_ffff_ffff_f000u64
}

/// Whether flag bits allow user-mode access.
pub open spec fn user_flag(flags: u64) -> bool {
    flags & 4 == 4
}

/// Whether flag bits mark a huge page.
pub open spec fn huge_flag(flags: u64) -> bool {
    flags & 0x80 == 0x80
}

/// Whether `addr` can be stored in an entry: 4 KiB aligned, below 2^52.
pub open spec fn storable_addr(addr: u64) -> bool {
    addr % 4096 == 0 && addr < 0x10_0000_0000_0000
}

/// The entry mapping `addr` with `flags`.
pub open spec fn make_entry(addr: u64, flags: u64) -> u64 {
    addr | flags
}

/// Whether a fork copies entry `e`: it is in use and user-accessible.
pub open spec fn copied_on_fork(e: u64) -> bool {
    e != 0 && user_flag(entry_flags(e))
}

/// The top-level table of a new address space, given the active one and the
/// fresh level-3 table `l3_phys`: entry 0 points to the new level-3 table
/// (with the flags of the active entry 0, made user-accessible) when the
/// active entry 0 is in use; other entries keep the kernel mappings, i.e.
/// the entries in use that are not user-accessible.
pub open spec fn process_l4_spec(active: Seq<u64>, l3_phys: u64) -> Seq<u64> {
    Seq::new(
        512,
        |i: int|
            if i == 0 {
                if active[0] != 0 {
                    make_entry(l3_phys, entry_flags(active[0]) | 4)
                } else {
                    0u64
                }
            } else if active[i] != 0 && !user_flag(entry_flags(active[i])) {
                active[i]
            } else {
                0u64
            },
    )
}

/// The fresh level-3 table of a new address space: the first four entries
/// (the kernel's first 4 GiB) are shared with the active level-3 table.
pub open spec fn process_l3_spec(active: Seq<u64>) -> Seq<u64> {
    Seq::new(512, |i: int| if i < 4 { active[i] } else { 0u64 })
}

/// What a fork does with one entry of a table.
#[derive(Debug, Clone, Copy, PartialEq, Eq, Structural)]
pub enum CopyKind {
    /// Copy the table it points to, one level down, into a fresh table.
    Subtable,
    /// Copy the page it maps into a fresh page.
    Leaf,
    /// Copy the table it points to into the table that already exists at
    /// the same index of the destination.
    IntoExisting,
}

/// One entry of a table that a fork copies.
#[derive(Debug, Clone, Copy, PartialEq, Eq, Structural)]
pub struct CopyStep {
    pub index: usize,
    pub addr: u64,
    pub flags: u64,
    pub kind: CopyKind,
}

/// The first index a copy of a level-`level` table looks at: level-3 tables
/// skip the four kernel entries, which the new address space shares.
pub open spec fn first_copied_index(level: u8) -> int {
    if level == 3 { 4 } else { 0 }
}

/// What a fork does with the entry at `i` of a level-`level` table: below a
/// level-1 table, entries that are not huge pages point to tables.
pub open spec fn step_for(e: u64, i: int, level: u8) -> CopyStep {
    CopyStep {
        index: i as usize,
        addr: entry_addr(e),
        flags: entry_flags(e),
        kind: if level > 1 && !huge_flag(entry_flags(e)) { CopyKind::Subtable } else { CopyKind::Leaf },
    }
}

/// What a fork does with the entry at `i` of the top-level table: entry 0
/// goes into the level-3 table the new address space already has.
pub open spec fn top_step_for(e: u64, i: int) -> CopyStep {
    CopyStep {
        index: i as usize,
        addr: entry_addr(e),
        flags: entry_flags(e),
        kind: if i == 0 { CopyKind::IntoExisting } else { CopyKind::Subtable },
    }
}

/// What a fork does with the entry at `i` of a level-`level` table, level 4
/// being the top-level table.
pub open spec fn plan_step(e: u64, i: int, level: u8) -> CopyStep {
    if level == 4 {
        top_step_for(e, i)
    } else {
        step_for(e, i, level)
    }
}

/// The steps for the entries from `first` up to (not including) `end` of a
/// level-`level` table that a fork copies, in index order.
pub open spec fn plan_upto(table: Seq<u64>, first: int, end: int, level: u8) -> Seq<CopyStep>
    decreases end - first,
{
    if end <= first {
        Seq::empty()
    } else {
        let p = plan_upto(table, first, end - 1, level);
        if copied_on_fork(table[end - 1]) {
            p.push(plan_step(table[end - 1], end - 1, level))
        } else {
            p
        }
    }
}

/// The copy plan of a whole level-`level` table.
pub open spec fn copy_plan(table: Seq<u64>, level: u8) -> Seq<CopyStep> {
    plan_upto(table, first_copied_index(level), 512, level)
}

/// Whether the flag bits allow user-mode access (`USER_ACCESSIBLE`).
///
/// Calls `PageTableFlags::contains` of the x86_64 crate, which holds when all
/// the bits of its argument are set.
#[verifier::external_body]
fn has_user_flag(flags: u64) -> (r: bool)
    ensures
        r == user_flag(flags),
{
    PageTableFlags::from_bits_retain(flags).contains(PageTableFlags::USER_ACCESSIBLE)
}

/// Whether the flag bits mark a huge page (`HUGE_PAGE`).
///
/// Calls `PageTableFlags::contains` of the x86_64 crate, which holds when all
/// the bits of its argument are set.
#[verifier::external_body]
fn has_huge_flag(flags: u64) -> (r: bool)
    ensures
        r == huge_flag(flags),
{
    PageTableFlags::from_bits_retain(flags).contains(PageTableFlags::HUGE_PAGE)
}

/// The `USER_ACCESSIBLE` flag bit.
///
/// Reads the bits of the x86_64 crate's `PageTableFlags::USER_ACCESSIBLE`,
/// which the crate defines as bit 2.
#[verifier::external_body]
fn user_accessible_bit() -> (r: u64)
    ensures
        r == 4,
{
    PageTableFlags::USER_ACCESSIBLE.bits()
}

/// The flag bits of an entry.
pub fn flags_of(e: u64) -> (r: u64)
    ensures
        r == entry_flags(e),
{
    e & !PHYS_ADDR_MASK
}

/// The physical address an entry points to.
pub fn addr_of(e: u64) -> (r: u64)
    ensures
        r == entry_addr(e),
{
    e & PHYS_ADDR_MASK
}

/// The entry mapping `addr` with `flags`.
pub fn new_entry(addr: u64, flags: u64) -> (r: u64)
    requires
        storable_addr(addr),
    ensures
        r == make_entry(addr, flags),
{
    addr | flags
}

/// Whether a fork copies entry `e`.
pub fn is_copied_on_fork(e: u64) -> (r: bool)
    ensures
        r == copied_on_fork(e),
{
    e != 0 && has_user_flag(flags_of(e))
}

/// The top-level table of a new address space; see `process_l4_spec`.
pub fn process_l4_table(active: &[u64], l3_phys: u64) -> (r: Vec<u64>)
    requires
        active@.len() == 512,
        storable_addr(l3_phys),
    ensures
        r@ == process_l4_spec(active@, l3_phys),
{
    let mut table: Vec<u64> = Vec::new();
    let first = if active[0] != 0 {
        new_entry(l3_phys, flags_of(active[0]) | user_accessible_bit())
    } else {
        0
    };
    table.push(first);
    let mut i: usize = 1;
    while i < ENTRY_COUNT
        invariant
            active@.len() == 512,
            1 <= i <= 512,
            table@ == process_l4_spec(active@, l3_phys).subrange(0, i as int),
        decreases 512 - i,
    {
        let e = active[i];
        let v = if e != 0 && !has_user_flag(flags_of(e)) {
            e
        } else {
            0
        };
        table.push(v);
        proof {
            assert(table@ =~= process_l4_spec(active@, l3_phys).subrange(0, i + 1));
        }
        i = i + 1;
    }
    proof {
        assert(table@ =~= process_l4_spec(active@, l3_phys));
    }
    table
}

/// The fresh level-3 table of a new address space; see `process_l3_spec`.
pub fn process_l3_table(active: &[u64]) -> (r: Vec<u64>)
    requires
        active@.len() == 512,
    ensures
        r@ == process_l3_spec(active@),
{
    let mut table: Vec<u64> = Vec::new();
    let mut i: usize = 0;
    while i < ENTRY_COUNT
        invariant
            active@.len() == 512,
            0 <= i <= 512,
            table@ == process_l3_spec(active@).subrange(0, i as int),
        decreases 512 - i,
    {
        let v = if i < KERNEL_L3_ENTRIES {
            active[i]
        } else {
            0
        };
        table.push(v);
        proof {
            assert(table@ =~= process_l3_spec(active@).subrange(0, i + 1));
        }
        i = i + 1;
    }
    proof {
        assert(table@ =~= process_l3_spec(active@));
    }
    table
}

/// The entries of a level-`level` table (levels 1 to 3) that a fork
/// copies, in index order, and what to do with each; see `step_for`.
pub fn table_copy_plan(table: &[u64], level: u8) -> (r: Vec<CopyStep>)
    requires
        table@.len() == 512,
        1 <= level <= 3,
    ensures
        r@ == copy_plan(table@, level),
{
    let start: usize = if level == 3 { 4 } else { 0 };
    plan_range(table, start, level)
}

/// The entries of a top-level table that a fork copies, in index order, and
/// what to do with each; see `top_step_for`.
pub fn address_space_copy_plan(table: &[u64]) -> (r: Vec<CopyStep>)
    requires
        table@.len() == 512,
    ensures
        r@ == copy_plan(table@, 4),
{
    plan_range(table, 0, 4)
}

/// The steps for the entries of `table` from `start` on.
fn plan_range(table: &[u64], start: usize, level: u8) -> (r: Vec<CopyStep>)
    requires
        table@.len() == 512,
        start <= 512,
        1 <= level <= 4,
    ensures
        r@ == plan_upto(table@, start as int, 512, level),
{
    let mut plan: Vec<CopyStep> = Vec::new();
    let mut i: usize = start;
    while i < ENTRY_COUNT
        invariant
            table@.len() == 512,
            1 <= level <= 4,
            start <= i <= 512,
            plan@ == plan_upto(table@, start as int, i as int, level),
        decreases 512 - i,
    {
        let e = table[i];
        if is_copied_on_fork(e) {
            let flags = flags_of(e);
            let kind = if level == 4 {
                if i == 0 {
                    CopyKind::IntoExisting
                } else {
                    CopyKind::Subtable
                }
            } else if level > 1 && !has_huge_flag(flags) {
                CopyKind::Subtable
            } else {
                CopyKind::Leaf
            };
            plan.push(CopyStep { index: i, addr: addr_of(e), flags, kind });
        }
        i = i + 1;
    }
    plan
}

/// A new address space never gains user mappings of the active one: every
/// entry of its top-level table but entry 0 is either unused or a
/// kernel (not user-accessible) entry copied from the active table.
pub proof fn lemma_new_space_has_no_user_mappings(active: Seq<u64>, l3_phys: u64)
    requires
        active.len() == 512,
    ensures
        forall|i: int| 1 <= i < 512 ==> {
            let e = #[trigger] process_l4_spec(active, l3_phys)[i];
            e == 0 || (e == active[i] && !user_flag(entry_flags(e)))
        },
{
}

/// Each step of a plan is for an index in range whose entry a fork copies.
proof fn lemma_plan_steps(table: Seq<u64>, first: int, end: int, level: u8)
    requires
        0 <= first,
        end <= table.len(),
        end <= 512,
    ensures
        forall|k: int| 0 <= k < plan_upto(table, first, end, level).len() ==> {
            let st = #[trigger] plan_upto(table, first, end, level)[k];
            &&& first <= st.index < end
            &&& copied_on_fork(table[st.index as int])
            &&& st == plan_step(table[st.index as int], st.index as int, level)
        },
    decreases end - first,
{
    if end > first {
        lemma_plan_steps(table, first, end - 1, level);
        let p = plan_upto(table, first, end - 1, level);
        let plan = plan_upto(table, first, end, level);
        assert forall|k: int| 0 <= k < plan.len() implies {
            let st = #[trigger] plan[k];
            &&& first <= st.index < end
            &&& copied_on_fork(table[st.index as int])
            &&& st == plan_step(table[st.index as int], st.index as int, level)
        } by {
            if k < p.len() {
                assert(plan[k] == p[k]);
            }
        }
    }
}

/// The indices of a plan increase.
proof fn lemma_plan_sorted(table: Seq<u64>, first: int, end: int, level: u8)
    requires
        0 <= first,
        end <= table.len(),
        end <= 512,
    ensures
        forall|k: int, m: int| 0 <= k < m < plan_upto(table, first, end, level).len()
            ==> (#[trigger] plan_upto(table, first, end, level)[k]).index < (#[trigger] plan_upto(table, first, end, level)[m]).index,
    decreases end - first,
{
    if end > first {
        lemma_plan_sorted(table, first, end - 1, level);
        lemma_plan_steps(table, first, end - 1, level);
        let p = plan_upto(table, first, end - 1, level);
        let plan = plan_upto(table, first, end, level);
        assert forall|k: int, m: int| 0 <= k < m < plan.len() implies (#[trigger] plan[k]).index < (#[trigger] plan[m]).index by {
            assert(plan[k] == p[k]);
            if m < p.len() {
                assert(plan[m] == p[m]);
            } else {
                assert(p[k].index < end - 1);
            }
        }
    }
}

/// Every entry in range that a fork copies has a step in the plan.
proof fn lemma_plan_complete(table: Seq<u64>, first: int, end: int, level: u8)
    requires
        0 <= first,
        end <= table.len(),
        end <= 512,
    ensures
        forall|i: int| first <= i < end && copied_on_fork(#[trigger] table[i]) ==> exists|k: int|
            0 <= k < plan_upto(table, first, end, level).len() && (#[trigger] plan_upto(table, first, end, level)[k]).index == i,
    decreases end - first,
{
    if end > first {
        lemma_plan_complete(table, first, end - 1, level);
        let p = plan_upto(table, first, end - 1, level);
        let plan = plan_upto(table, first, end, level);
        assert forall|i: int| first <= i < end && copied_on_fork(#[trigger] table[i]) implies exists|k: int|
            0 <= k < plan.len() && (#[trigger] plan[k]).index == i by {
            if i < end - 1 {
                let k = choose|k: int| 0 <= k < p.len() && (#[trigger] p[k]).index == i;
                assert(plan[k] == p[k]);
            } else {
                assert(plan[plan.len() - 1].index == i);
            }
        }
    }
}

/// A fork copies exactly the user memory in use, in order: each step of a
/// plan is for an index from `first` on whose entry is in use and
/// user-accessible (so a level-3 plan never touches the four shared kernel
/// entries), the indices increase, and every such entry has its step.
pub proof fn lemma_plan_is_exact(table: Seq<u64>, level: u8)
    requires
        table.len() == 512,
    ensures
        ({
            let plan = copy_plan(table, level);
            let first = first_copied_index(level);
            &&& forall|k: int| 0 <= k < plan.len() ==> {
                let st = #[trigger] plan[k];
                &&& first <= st.index < 512
                &&& copied_on_fork(table[st.index as int])
                &&& st == plan_step(table[st.index as int], st.index as int, level)
            }
            &&& forall|k: int, m: int| 0 <= k < m < plan.len() ==> (#[trigger] plan[k]).index < (#[trigger] plan[m]).index
            &&& forall|i: int| first <= i < 512 && copied_on_fork(#[trigger] table[i]) ==> exists|k: int|
                0 <= k < plan.len() && (#[trigger] plan[k]).index == i
        }),
{
    let first = first_copied_index(level);
    lemma_plan_steps(table, first, 512, level);
    lemma_plan_sorted(table, first, 512, level);
    lemma_plan_complete(table, first, 512, level);
}

/// An entry splits into its address (bits 12 to 51, 4 KiB aligned) and its
/// flags (all other bits), which together give the entry back; the user
/// flag is bit 2 and the huge-page flag bit 7 of the entry; a fork copies an
/// entry exactly when it is in use and has bit 2 set.
pub proof fn lemma_entry_parts(e: u64)
    ensures
        entry_addr(e) | entry_flags(e) == e,
        entry_addr(e) & entry_flags(e) == 0,
        entry_addr(e) % 4096 == 0,
        entry_addr(e) < 0x10_0000_0000_0000,
        user_flag(entry_flags(e)) == (e & 4 != 0),
        huge_flag(entry_flags(e)) == (e & 0x80 != 0),
        copied_on_fork(e) == (e != 0 && e & 4 != 0),
{
    assert((e & 0x000f_ffff_ffff_f000u64) | (e & !0x000f_ffff_ffff_f000u64) == e) by (bit_vector);
    assert((e & 0x000f_ffff_ffff_f000u64) & (e & !0x000f_ffff_ffff_f000u64) == 0) by (bit_vector);
    assert((e & 0x000f_ffff_ffff_f000u64) % 4096 == 0) by (bit_vector);
    assert((e & 0x000f_ffff_ffff_f000u64) < 0x10_0000_0000_0000) by (bit_vector);
    assert(((e & !0x000f_ffff_ffff_f000u64) & 4 == 4) == (e & 4 != 0)) by (bit_vector);
    assert(((e & !0x000f_ffff_ffff_f000u64) & 0x80 == 0x80) == (e & 0x80 != 0)) by (bit_vector);
}

/// Entry 0 of a new address space points to the fresh level-3 table with
/// the flags of the active entry 0 plus the user flag; it is unused when the
/// active entry 0 is.
pub proof fn lemma_new_space_entry0(active: Seq<u64>, l3_phys: u64)
    requires
        active.len() == 512,
        storable_addr(l3_phys),
    ensures
        active[0] == 0 ==> process_l4_spec(active, l3_phys)[0] == 0,
        active[0] != 0 ==> {
            let e = process_l4_spec(active, l3_phys)[0];
            &&& entry_addr(e) == l3_phys
            &&& entry_flags(e) == entry_flags(active[0]) | 4
            &&& user_flag(entry_flags(e))
        },
{
    let a = active[0];
    assert(l3_phys % 4096 == 0 && l3_phys < 0x10_0000_0000_0000 ==> {
        let f = (a & !0x000f_ffff_ffff_f000u64) | 4;
        &&& (l3_phys | f) & 0x000f_ffff_ffff_f000u64 == l3_phys
        &&& (l3_phys | f) & !0x000f_ffff_ffff_f000u64 == f
        &&& f & 4 == 4
    }) by (bit_vector);
}

/// The step a fork takes for entry `e` at index `i` of a level-`level`
/// table: the entry's address and flags; in the top-level table, entry 0 is
/// copied into the existing level-3 table and other entries into fresh
/// tables; below, an entry of a level-2 or level-3 table without the
/// huge-page bit (bit 7) points to a table, and anything else is a page.
/// Level-3 tables are copied from index 4, the others from index 0.
pub proof fn lemma_copy_step_kinds(e: u64, i: int, level: u8)
    requires
        0 <= i < 512,
    ensures
        plan_step(e, i, level).index == i,
        plan_step(e, i, level).addr == e & 0x000f_ffff_ffff_f000u64,
        plan_step(e, i, level).flags == e & !0x000f_ffff_ffff_f000u64,
        level == 4 ==> plan_step(e, i, level).kind == if i == 0 { CopyKind::IntoExisting } else { CopyKind::Subtable },
        level != 4 ==> plan_step(e, i, level).kind == if level > 1 && e & 0x80 == 0 {
            CopyKind::Subtable
        } else {
            CopyKind::Leaf
        },
        first_copied_index(level) == if level == 3 { 4int } else { 0int },
{
    lemma_entry_parts(e);
}

/// A new address space shares the kernel: every top-level entry but 0 that
/// is in use and not user-accessible is kept, every other one is unused; its
/// level-3 table keeps the first four entries (the first 4 GiB) of the
/// active one and nothing else.
pub proof fn lemma_new_space_shares_kernel(active: Seq<u64>, active_l3: Seq<u64>, l3_phys: u64)
    requires
        active.len() == 512,
        active_l3.len() == 512,
    ensures
        forall|i: int| 1 <= i < 512 ==> #[trigger] process_l4_spec(active, l3_phys)[i] == if active[i] != 0 && active[i] & 4 == 0 {
            active[i]
        } else {
            0u64
        },
        process_l3_spec(active_l3).len() == 512,
        forall|i: int| 0 <= i < 4 ==> #[trigger] process_l3_spec(active_l3)[i] == active_l3[i],
        forall|i: int| 4 <= i < 512 ==> #[trigger] process_l3_spec(active_l3)[i] == 0,
{
    assert forall|i: int| 1 <= i < 512 implies #[trigger] process_l4_spec(active, l3_phys)[i] == if active[i] != 0
        && active[i] & 4 == 0 {
        active[i]
    } else {
        0u64
    } by {
        lemma_entry_parts(active[i]);
    }
}

} // verus!
