//! ATA register offsets from the base I/O port.
use vstd::prelude::*;

verus! {

pub const ATA_REG_DATA: u16 = 0x00;

pub const ATA_REG_ERR: u16 = 0x01;

pub const ATA_REG_NSECT: u16 = 0x02;

pub const ATA_REG_LBAL: u16 = 0x03;

pub const ATA_REG_LBAM: u16 = 0x04;

pub const ATA_REG_LBAH: u16 = 0x05;

pub const ATA_REG_DEVICE: u16 = 0x06;

pub const ATA_REG_STATUS: u16 = 0x07;

pub const ATA_REG_FEATURE: u16 = 0x01;

pub const ATA_REG_CMD: u16 = 0x07;

} // verus!
