//! Block-device layer: sector geometry, ATA protocol constants and I/O
//! statistics, and the arithmetic that turns a byte request into sectors.
use vstd::prelude::*;
use crate::error::KernelResult;

pub mod ata_regs;
pub mod ata_status;
pub mod ata_error;
pub mod ata_cmd;
pub mod ata_device;
pub mod ata_port;
pub mod ata_ctrl;
pub mod ata_limits;
pub mod ata_timeouts;
pub mod ata_identify;

verus! {

/// Standard sector size of ATA devices.
pub const ATA_SECTOR_SIZE: usize = 512;

/// Standard block size (may differ from the sector size).
pub const BLOCK_SIZE: usize = 4096;

/// Maximum sectors per request.
pub const ATA_MAX_SECTORS: usize = 256;

/// A disk, or anything else addressed in fixed-size sectors.
pub trait BlockDevice: Send + Sync {
    /// Whether `r` is an answer of the device to a read of `count` sectors
    /// from `sector` into a buffer of `buf_len` bytes.
    spec fn answers_read(&self, sector: u64, count: usize, buf_len: usize, r: KernelResult<usize>) -> bool;

    /// Whether `r` is an answer of the device to a write of `count` sectors
    /// taken from `data` at `sector`.
    spec fn answers_write(&self, sector: u64, count: usize, data: &[u8], r: KernelResult<usize>) -> bool;

    /// Reads `count` sectors from `sector` into `buf`; returns the number of
    /// bytes read.
    fn read_sectors(&self, sector: u64, count: usize, buf: &mut [u8]) -> (r: KernelResult<usize>)
        ensures
            self.answers_read(sector, count, old(buf)@.len() as usize, r),
            final(buf)@.len() == old(buf)@.len(),
    ;

    /// Writes `count` sectors from `buf` at `sector`; returns the number of
    /// bytes written.
    fn write_sectors(&self, sector: u64, count: usize, buf: &[u8]) -> (r: KernelResult<usize>)
        ensures
            self.answers_write(sector, count, buf, r),
    ;

    /// The number of sectors of the device.
    spec fn sector_count(&self) -> u64;

    /// The number of sectors of the device.
    fn num_sectors(&self) -> (r: u64)
        ensures
            r == self.sector_count(),
    ;

    /// The size in bytes of a sector of the device.
    spec fn sector_bytes(&self) -> usize;

    /// The size of a sector in bytes, which is never zero.
    fn sector_size(&self) -> (r: usize)
        ensures
            r == self.sector_bytes(),
            r > 0,
    ;

    /// Whether the device is there.
    fn is_present(&self) -> (r: bool);

    /// The name of the device.
    fn device_name(&self) -> (r: &str);
}

/// Block-device I/O statistics.
#[derive(Debug, Default)]
pub struct BlockStats {
    pub reads: u64,
    pub writes: u64,
    pub read_sectors: u64,
    pub write_sectors: u64,
    pub read_errors: u64,
    pub write_errors: u64,
}

impl BlockStats {
    /// All counters zero.
    pub fn new() -> (r: Self)
        ensures
            r.reads == 0 && r.writes == 0 && r.read_sectors == 0,
            r.write_sectors == 0 && r.read_errors == 0 && r.write_errors == 0,
    {
        BlockStats { reads: 0, writes: 0, read_sectors: 0, write_sectors: 0, read_errors: 0, write_errors: 0 }
    }
}

} // verus!
