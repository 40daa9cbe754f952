//! ATA error register bits.
use vstd::prelude::*;

verus! {

pub const ATA_AMNF: u8 = 0x01;

pub const ATA_TK0NF: u8 = 0x02;

pub const ATA_ABRT: u8 = 0x04;

pub const ATA_MCR: u8 = 0x08;

pub const ATA_IDNF: u8 = 0x10;

pub const ATA_MC: u8 = 0x20;

pub const ATA_UNC: u8 = 0x40;

pub const ATA_BBK: u8 = 0x80;

} // verus!
