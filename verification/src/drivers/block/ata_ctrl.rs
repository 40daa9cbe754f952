//! Bits of the ATA device control register.
use vstd::prelude::*;

verus! {

pub const SRST: u8 = 0x04;

pub const NIEN: u8 = 0x02;

pub const ENABLE: u8 = 0x00;

} // verus!
