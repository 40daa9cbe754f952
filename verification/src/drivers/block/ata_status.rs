//! ATA status register bits.
use vstd::prelude::*;

verus! {

pub const ATA_BUSY: u8 = 0x80;

pub const ATA_DRDY: u8 = 0x40;

pub const ATA_DF: u8 = 0x20;

pub const ATA_SRV: u8 = 0x10;

pub const ATA_DRQ: u8 = 0x08;

pub const ATA_CORR: u8 = 0x04;

pub const ATA_SENSE: u8 = 0x02;

pub const ATA_ERR: u8 = 0x01;

} // verus!
