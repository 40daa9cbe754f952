//! Bits of the ATA device/head register.
use vstd::prelude::*;

verus! {

pub const ATA_LBA: u8 = 0x40;

pub const ATA_DEV1: u8 = 0x10;

pub const ATA_HOB: u8 = 0x80;

pub const ATA_MASTER_MAGIC: u8 = 0xE0;

pub const ATA_SLAVE_MAGIC: u8 = 0xF0;

} // verus!
