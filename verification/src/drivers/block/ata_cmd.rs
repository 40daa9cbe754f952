//! ATA commands.
use vstd::prelude::*;

verus! {

pub const ATA_CMD_READ_PIO: u8 = 0x20;

pub const ATA_CMD_READ_PIO_EXT: u8 = 0x24;

pub const ATA_CMD_READ_DMA: u8 = 0xC8;

pub const ATA_CMD_READ_DMA_EXT: u8 = 0x25;

pub const ATA_CMD_WRITE_PIO: u8 = 0x30;

pub const ATA_CMD_WRITE_PIO_EXT: u8 = 0x34;

pub const ATA_CMD_WRITE_DMA: u8 = 0xCA;

pub const ATA_CMD_WRITE_DMA_EXT: u8 = 0x35;

pub const ATA_CMD_IDENTIFY: u8 = 0xEC;

pub const ATA_CMD_SET_FEATURES: u8 = 0xEF;

pub const ATA_CMD_FLUSH_CACHE: u8 = 0xE7;

pub const ATA_CMD_FLUSH_CACHE_EXT: u8 = 0xEA;

} // verus!
