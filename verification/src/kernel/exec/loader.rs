//! The plan for loading an ELF executable: which pages each loadable segment
//! covers, which bytes of the file go where in each page, where the user
//! stack lies, and the registers the program starts with.
use vstd::prelude::*;
use x86_64::structures::paging::{Page, Size4KiB};
use x86_64::VirtAddr;
use crate::consts::{PAGE_SIZE, USER_STACK_PAGES, USER_STACK_TOP};
use crate::kernel::exec::elf::Elf64Phdr;
use crate::regs::PtRegs;

verus! {

/// Whether `addr` is a canonical virtual address: bits 48 to 63 copy bit 47.
pub open spec fn canonical(addr: u64) -> bool {
    addr < 0x0000_8000_0000_0000 || addr >= 0xffff_8000_0000_0000
}

/// The start of the 4 KiB page holding `addr`.
pub open spec fn page_start(addr: u64) -> u64 {
    (addr - addr % 4096) as u64
}

/// The start of the 4 KiB page that holds virtual address `addr`.
///
/// Calls `Page::<Size4KiB>::containing_address` of the x86_64 crate, which
/// rounds the address down to a multiple of 4096; `VirtAddr::new` panics on
/// an address that is not canonical.
#[verifier::external_body]
fn containing_page(addr: u64) -> (r: u64)
    requires
        canonical(addr),
    ensures
        r == page_start(addr),
{
    Page::<Size4KiB>::containing_address(VirtAddr::new(addr)).start_address().as_u64()
}

/// Where the bytes of a file go in one page of a segment.
#[derive(Debug, Clone, Copy, PartialEq, Eq, Structural)]
pub struct PageCopy {
    /// Offset in the file of the first byte to copy.
    pub file_offset: u64,
    /// Offset in the page where that byte goes.
    pub page_offset: u64,
    /// Number of bytes to copy.
    pub len: u64,
}

/// Whether a segment can be laid out: its memory range neither wraps nor
/// leaves the canonical addresses, and its file bytes are addressable.
pub open spec fn segment_addressable(ph: Elf64Phdr) -> bool {
    &&& ph.p_memsz > 0
    &&& ph.p_vaddr + ph.p_memsz <= u64::MAX
    &&& canonical(ph.p_vaddr)
    &&& canonical((ph.p_vaddr + ph.p_memsz - 1) as u64)
    &&& ph.p_vaddr + ph.p_filesz <= u64::MAX
    &&& ph.p_offset + ph.p_filesz <= u64::MAX
}

/// The bytes of the page at `page` that come from the file: those that lie
/// both in the page and in the segment's file image.
pub open spec fn page_copy_spec(page: u64, ph: Elf64Phdr) -> Option<PageCopy> {
    let page_end = page + 4096;
    let copy_start = if page >= ph.p_vaddr { page as int } else { ph.p_vaddr as int };
    let file_end = ph.p_vaddr + ph.p_filesz;
    let copy_end = if page_end <= file_end { page_end } else { file_end };
    if copy_start < copy_end {
        Some(PageCopy {
            file_offset: (ph.p_offset + (copy_start - ph.p_vaddr)) as u64,
            page_offset: (copy_start - page) as u64,
            len: (copy_end - copy_start) as u64,
        })
    } else {
        None
    }
}

/// The first and the last page of a segment.
pub fn segment_pages(ph: &Elf64Phdr) -> (r: (u64, u64))
    requires
        segment_addressable(*ph),
    ensures
        r == (page_start(ph.p_vaddr), page_start((ph.p_vaddr + ph.p_memsz - 1) as u64)),
        r.0 % 4096 == 0 && r.0 <= ph.p_vaddr < r.0 + 4096,
        r.1 % 4096 == 0 && r.1 <= ph.p_vaddr + ph.p_memsz - 1 < r.1 + 4096,
{
    let start = containing_page(ph.p_vaddr);
    let end = containing_page(ph.p_vaddr + ph.p_memsz - 1);
    (start, end)
}

/// The bytes of the file that go into the page at `page` of segment `ph`.
pub fn page_copy(page: u64, ph: &Elf64Phdr) -> (r: Option<PageCopy>)
    requires
        page + 4096 <= u64::MAX,
        segment_addressable(*ph),
    ensures
        r == page_copy_spec(page, *ph),
        (r is Some <==> (ph.p_filesz > 0 && page < ph.p_vaddr + ph.p_filesz && ph.p_vaddr < page + 4096)),
        r matches Some(c) ==> {
            let start = page + c.page_offset;
            let end = start + c.len;
            &&& c.len > 0
            &&& start >= page && start >= ph.p_vaddr
            &&& (start == page || start == ph.p_vaddr)
            &&& end <= page + 4096 && end <= ph.p_vaddr + ph.p_filesz
            &&& (end == page + 4096 || end == ph.p_vaddr + ph.p_filesz)
            &&& c.file_offset == ph.p_offset + (start - ph.p_vaddr)
        },
{
    let page_end = page + PAGE_SIZE as u64;
    let copy_start = if page >= ph.p_vaddr { page } else { ph.p_vaddr };
    let file_end = ph.p_vaddr + ph.p_filesz;
    let copy_end = if page_end <= file_end { page_end } else { file_end };
    if copy_start < copy_end {
        Some(PageCopy {
            file_offset: ph.p_offset + (copy_start - ph.p_vaddr),
            page_offset: copy_start - page,
            len: copy_end - copy_start,
        })
    } else {
        None
    }
}

/// The virtual address of user stack page `i`, counting down from the top.
pub fn user_stack_page(i: usize) -> (r: u64)
    requires
        i < USER_STACK_PAGES,
    ensures
        r == USER_STACK_TOP - (i + 1) * 4096,
{
    USER_STACK_TOP - (i as u64 + 1) * PAGE_SIZE as u64
}

/// Sets the registers a loaded program starts with: it runs from `entry`
/// with the stack at the top of the user stack and 0 in `rax`.
pub fn enter_program(regs: &mut PtRegs, entry: u64)
    ensures
        *final(regs) == (PtRegs { rip: entry, rsp: USER_STACK_TOP, rax: 0, ..*old(regs) }),
{
    regs.rip = entry;
    regs.rsp = USER_STACK_TOP;
    regs.rax = 0;
}

/// Every byte copied into a page comes from the segment's file image and
/// lands inside the page.
pub proof fn lemma_page_copy_in_bounds(page: u64, ph: Elf64Phdr)
    requires
        page + 4096 <= u64::MAX,
        segment_addressable(ph),
    ensures
        page_copy_spec(page, ph) matches Some(c) ==> {
            &&& c.len > 0
            &&& c.page_offset + c.len <= 4096
            &&& ph.p_offset <= c.file_offset
            &&& c.file_offset + c.len <= ph.p_offset + ph.p_filesz
        },
{
}

/// The part of the file copied into a page is exactly where the page meets
/// the segment's file image `[p_vaddr, p_vaddr + p_filesz)`: there is a copy
/// exactly when the two overlap, it starts at the later of the two starts,
/// ends at the earlier of the two ends, and its file offset is as far from
/// `p_offset` as its start is from `p_vaddr`.
pub proof fn lemma_page_copy_is_overlap(page: u64, ph: Elf64Phdr)
    requires
        page + 4096 <= u64::MAX,
        segment_addressable(ph),
    ensures
        ({
            let r = page_copy_spec(page, ph);
            &&& (r is Some <==> (ph.p_filesz > 0 && page < ph.p_vaddr + ph.p_filesz && ph.p_vaddr < page + 4096))
            &&& (r matches Some(c) ==> {
                let start = page + c.page_offset;
                let end = start + c.len;
                &&& c.len > 0
                &&& start >= page && start >= ph.p_vaddr
                &&& (start == page || start == ph.p_vaddr)
                &&& end <= page + 4096 && end <= ph.p_vaddr + ph.p_filesz
                &&& (end == page + 4096 || end == ph.p_vaddr + ph.p_filesz)
                &&& c.file_offset == ph.p_offset + (start - ph.p_vaddr)
            })
        }),
{
}

} // verus!
