//! ELF64 headers, decoded from the bytes of a file (little endian).
use vstd::prelude::*;
use vstd::bytes::{
    spec_u16_from_le_bytes, spec_u32_from_le_bytes, spec_u64_from_le_bytes, u16_from_le_bytes,
    u32_from_le_bytes, u64_from_le_bytes,
};
use vstd::slice::slice_subrange;
use crate::consts::{ELF_MACHINE_X86_64, ELF_TYPE_EXEC};
use crate::error::{KernelError, KernelResult};

verus! {

/// Size of the ELF64 file header.
pub const ELF64_HEADER_SIZE: usize = 64;

/// Size of an ELF64 program header.
pub const ELF64_PHDR_SIZE: usize = 56;

/// Program-header type of a loadable segment.
pub const PT_LOAD: u32 = 1;

/// The ELF64 file header.
#[derive(Debug, Clone, Copy, PartialEq, Eq, Structural)]
pub struct Elf64Header {
    pub e_type: u16,
    pub e_machine: u16,
    pub e_version: u32,
    pub e_entry: u64,
    pub e_phoff: u64,
    pub e_shoff: u64,
    pub e_flags: u32,
    pub e_ehsize: u16,
    pub e_phentsize: u16,
    pub e_phnum: u16,
    pub e_shentsize: u16,
    pub e_shnum: u16,
    pub e_shstrndx: u16,
}

/// An ELF64 program header.
#[derive(Debug, Clone, Copy, PartialEq, Eq, Structural)]
pub struct Elf64Phdr {
    pub p_type: u32,
    pub p_flags: u32,
    pub p_offset: u64,
    pub p_vaddr: u64,
    pub p_paddr: u64,
    pub p_filesz: u64,
    pub p_memsz: u64,
    pub p_align: u64,
}

/// The little-endian u16 at `off` of `d`.
pub open spec fn le16(d: Seq<u8>, off: int) -> u16 {
    spec_u16_from_le_bytes(d.subrange(off, off + 2))
}

/// The little-endian u32 at `off` of `d`.
pub open spec fn le32(d: Seq<u8>, off: int) -> u32 {
    spec_u32_from_le_bytes(d.subrange(off, off + 4))
}

/// The little-endian u64 at `off` of `d`.
pub open spec fn le64(d: Seq<u8>, off: int) -> u64 {
    spec_u64_from_le_bytes(d.subrange(off, off + 8))
}

/// The file header stored at the start of `d`.
pub open spec fn header_at(d: Seq<u8>) -> Elf64Header {
    Elf64Header {
        e_type: le16(d, 16),
        e_machine: le16(d, 18),
        e_version: le32(d, 20),
        e_entry: le64(d, 24),
        e_phoff: le64(d, 32),
        e_shoff: le64(d, 40),
        e_flags: le32(d, 48),
        e_ehsize: le16(d, 52),
        e_phentsize: le16(d, 54),
        e_phnum: le16(d, 56),
        e_shentsize: le16(d, 58),
        e_shnum: le16(d, 60),
        e_shstrndx: le16(d, 62),
    }
}

/// The program header stored at `off` of `d`.
pub open spec fn phdr_at(d: Seq<u8>, off: int) -> Elf64Phdr {
    Elf64Phdr {
        p_type: le32(d, off),
        p_flags: le32(d, off + 4),
        p_offset: le64(d, off + 8),
        p_vaddr: le64(d, off + 16),
        p_paddr: le64(d, off + 24),
        p_filesz: le64(d, off + 32),
        p_memsz: le64(d, off + 40),
        p_align: le64(d, off + 48),
    }
}

/// Whether `d` starts like an x86_64 executable: the ELF magic number, the
/// x86_64 machine type and the executable file type.
pub open spec fn is_x86_64_executable(d: Seq<u8>) -> bool {
    &&& d[0] == 0x7f && d[1] == 0x45 && d[2] == 0x4c && d[3] == 0x46
    &&& header_at(d).e_machine == ELF_MACHINE_X86_64
    &&& header_at(d).e_type == ELF_TYPE_EXEC
}

/// The offset of program header `i` described by header `h`.
pub open spec fn phdr_offset(h: Elf64Header, i: int) -> int {
    h.e_phoff + i * 56
}

/// Where each field of the file header lies: the ELF64 layout, every field
/// little endian at its fixed offset (`e_type` at 16, `e_machine` at 18,
/// `e_version` at 20, `e_entry` at 24, `e_phoff` at 32, `e_shoff` at 40,
/// `e_flags` at 48, `e_ehsize` at 52, `e_phentsize` at 54, `e_phnum` at 56,
/// `e_shentsize` at 58, `e_shnum` at 60, `e_shstrndx` at 62).
pub proof fn lemma_header_layout(d: Seq<u8>)
    ensures
        header_at(d).e_type == spec_u16_from_le_bytes(d.subrange(16, 18)),
        header_at(d).e_machine == spec_u16_from_le_bytes(d.subrange(18, 20)),
        header_at(d).e_version == spec_u32_from_le_bytes(d.subrange(20, 24)),
        header_at(d).e_entry == spec_u64_from_le_bytes(d.subrange(24, 32)),
        header_at(d).e_phoff == spec_u64_from_le_bytes(d.subrange(32, 40)),
        header_at(d).e_shoff == spec_u64_from_le_bytes(d.subrange(40, 48)),
        header_at(d).e_flags == spec_u32_from_le_bytes(d.subrange(48, 52)),
        header_at(d).e_ehsize == spec_u16_from_le_bytes(d.subrange(52, 54)),
        header_at(d).e_phentsize == spec_u16_from_le_bytes(d.subrange(54, 56)),
        header_at(d).e_phnum == spec_u16_from_le_bytes(d.subrange(56, 58)),
        header_at(d).e_shentsize == spec_u16_from_le_bytes(d.subrange(58, 60)),
        header_at(d).e_shnum == spec_u16_from_le_bytes(d.subrange(60, 62)),
        header_at(d).e_shstrndx == spec_u16_from_le_bytes(d.subrange(62, 64)),
{
}

/// Where each field of a program header at `off` lies: `p_type` at `off`,
/// `p_flags` at `off + 4`, `p_offset` at `off + 8`, `p_vaddr` at `off + 16`,
/// `p_paddr` at `off + 24`, `p_filesz` at `off + 32`, `p_memsz` at
/// `off + 40` and `p_align` at `off + 48`, each little endian.
pub proof fn lemma_phdr_layout(d: Seq<u8>, off: int)
    ensures
        phdr_at(d, off).p_type == spec_u32_from_le_bytes(d.subrange(off + 0, off + 4)),
        phdr_at(d, off).p_flags == spec_u32_from_le_bytes(d.subrange(off + 4, off + 8)),
        phdr_at(d, off).p_offset == spec_u64_from_le_bytes(d.subrange(off + 8, off + 16)),
        phdr_at(d, off).p_vaddr == spec_u64_from_le_bytes(d.subrange(off + 16, off + 24)),
        phdr_at(d, off).p_paddr == spec_u64_from_le_bytes(d.subrange(off + 24, off + 32)),
        phdr_at(d, off).p_filesz == spec_u64_from_le_bytes(d.subrange(off + 32, off + 40)),
        phdr_at(d, off).p_memsz == spec_u64_from_le_bytes(d.subrange(off + 40, off + 48)),
        phdr_at(d, off).p_align == spec_u64_from_le_bytes(d.subrange(off + 48, off + 56)),
{
}

/// Program header `i` lies `i` entries of 56 bytes after `e_phoff`.
pub proof fn lemma_phdr_position(h: Elf64Header, i: int)
    ensures
        phdr_offset(h, i) == h.e_phoff + 56 * i,
{
}

fn read_u16(d: &[u8], off: usize) -> (r: u16)
    requires
        off + 2 <= d.len(),
    ensures
        r == le16(d@, off as int),
{
    u16_from_le_bytes(slice_subrange(d, off, off + 2))
}

fn read_u32(d: &[u8], off: usize) -> (r: u32)
    requires
        off + 4 <= d.len(),
    ensures
        r == le32(d@, off as int),
{
    u32_from_le_bytes(slice_subrange(d, off, off + 4))
}

fn read_u64(d: &[u8], off: usize) -> (r: u64)
    requires
        off + 8 <= d.len(),
    ensures
        r == le64(d@, off as int),
{
    u64_from_le_bytes(slice_subrange(d, off, off + 8))
}

/// Decodes the file header of `data`; files too short to hold one, and
/// files that are not x86_64 executables, are refused.
pub fn parse_header(data: &[u8]) -> (r: KernelResult<Elf64Header>)
    ensures
        data@.len() < 64 ==> r == Err::<Elf64Header, KernelError>(KernelError::InvalidAddress),
        data@.len() >= 64 ==> r == if is_x86_64_executable(data@) {
            Ok::<Elf64Header, KernelError>(header_at(data@))
        } else {
            Err(KernelError::InvalidAddress)
        },
        (data@.len() >= 64 && data@[0] == 0x7f && data@[1] == 0x45 && data@[2] == 0x4c && data@[3] == 0x46
            && spec_u16_from_le_bytes(data@.subrange(18, 20)) == 0x3E
            && spec_u16_from_le_bytes(data@.subrange(16, 18)) == 2) ==> r is Ok,
        r matches Ok(h) ==> {
            &&& data@.len() >= 64
            &&& data@[0] == 0x7f && data@[1] == 0x45 && data@[2] == 0x4c && data@[3] == 0x46
            &&& h.e_machine == 0x3E && h.e_type == 2
            &&& h.e_type == spec_u16_from_le_bytes(data@.subrange(16, 18))
            &&& h.e_machine == spec_u16_from_le_bytes(data@.subrange(18, 20))
            &&& h.e_version == spec_u32_from_le_bytes(data@.subrange(20, 24))
            &&& h.e_entry == spec_u64_from_le_bytes(data@.subrange(24, 32))
            &&& h.e_phoff == spec_u64_from_le_bytes(data@.subrange(32, 40))
            &&& h.e_shoff == spec_u64_from_le_bytes(data@.subrange(40, 48))
            &&& h.e_flags == spec_u32_from_le_bytes(data@.subrange(48, 52))
            &&& h.e_ehsize == spec_u16_from_le_bytes(data@.subrange(52, 54))
            &&& h.e_phentsize == spec_u16_from_le_bytes(data@.subrange(54, 56))
            &&& h.e_phnum == spec_u16_from_le_bytes(data@.subrange(56, 58))
            &&& h.e_shentsize == spec_u16_from_le_bytes(data@.subrange(58, 60))
            &&& h.e_shnum == spec_u16_from_le_bytes(data@.subrange(60, 62))
            &&& h.e_shstrndx == spec_u16_from_le_bytes(data@.subrange(62, 64))
        },
{
    if data.len() < ELF64_HEADER_SIZE {
        return Err(KernelError::InvalidAddress);
    }
    let header = Elf64Header {
        e_type: read_u16(data, 16),
        e_machine: read_u16(data, 18),
        e_version: read_u32(data, 20),
        e_entry: read_u64(data, 24),
        e_phoff: read_u64(data, 32),
        e_shoff: read_u64(data, 40),
        e_flags: read_u32(data, 48),
        e_ehsize: read_u16(data, 52),
        e_phentsize: read_u16(data, 54),
        e_phnum: read_u16(data, 56),
        e_shentsize: read_u16(data, 58),
        e_shnum: read_u16(data, 60),
        e_shstrndx: read_u16(data, 62),
    };
    let magic = data[0] == 0x7f && data[1] == 0x45 && data[2] == 0x4c && data[3] == 0x46;
    if !(magic && header.e_machine == ELF_MACHINE_X86_64 && header.e_type == ELF_TYPE_EXEC) {
        return Err(KernelError::InvalidAddress);
    }
    Ok(header)
}

/// Decodes program header `i` of the file described by `header`; a header
/// that does not lie within the file is refused.
pub fn program_header(data: &[u8], header: &Elf64Header, i: u16) -> (r: KernelResult<Elf64Phdr>)
    ensures
        r == if phdr_offset(*header, i as int) + 56 <= data@.len() {
            Ok::<Elf64Phdr, KernelError>(phdr_at(data@, phdr_offset(*header, i as int)))
        } else {
            Err(KernelError::InvalidAddress)
        },
        r matches Ok(p) ==> {
            &&& header.e_phoff + 56 * i + 56 <= data@.len()
            &&& p.p_type == spec_u32_from_le_bytes(data@.subrange(header.e_phoff + 56 * i + 0, header.e_phoff + 56 * i + 4))
            &&& p.p_flags == spec_u32_from_le_bytes(data@.subrange(header.e_phoff + 56 * i + 4, header.e_phoff + 56 * i + 8))
            &&& p.p_offset == spec_u64_from_le_bytes(data@.subrange(header.e_phoff + 56 * i + 8, header.e_phoff + 56 * i + 16))
            &&& p.p_vaddr == spec_u64_from_le_bytes(data@.subrange(header.e_phoff + 56 * i + 16, header.e_phoff + 56 * i + 24))
            &&& p.p_paddr == spec_u64_from_le_bytes(data@.subrange(header.e_phoff + 56 * i + 24, header.e_phoff + 56 * i + 32))
            &&& p.p_filesz == spec_u64_from_le_bytes(data@.subrange(header.e_phoff + 56 * i + 32, header.e_phoff + 56 * i + 40))
            &&& p.p_memsz == spec_u64_from_le_bytes(data@.subrange(header.e_phoff + 56 * i + 40, header.e_phoff + 56 * i + 48))
            &&& p.p_align == spec_u64_from_le_bytes(data@.subrange(header.e_phoff + 56 * i + 48, header.e_phoff + 56 * i + 56))
        },
{
    let len = data.len() as u64;
    let rel = (i as u64) * (ELF64_PHDR_SIZE as u64);
    if header.e_phoff > len || rel + (ELF64_PHDR_SIZE as u64) > len - header.e_phoff {
        return Err(KernelError::InvalidAddress);
    }
    let off = (header.e_phoff + rel) as usize;
    Ok(Elf64Phdr {
        p_type: read_u32(data, off),
        p_flags: read_u32(data, off + 4),
        p_offset: read_u64(data, off + 8),
        p_vaddr: read_u64(data, off + 16),
        p_paddr: read_u64(data, off + 24),
        p_filesz: read_u64(data, off + 32),
        p_memsz: read_u64(data, off + 40),
        p_align: read_u64(data, off + 48),
    })
}

} // verus!
