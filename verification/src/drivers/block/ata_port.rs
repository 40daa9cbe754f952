//! I/O port bases of the ATA channels.
use vstd::prelude::*;

verus! {

pub const ATA_PRIMARY: u16 = 0x1F0;

pub const ATA_PRIMARY_CTRL: u16 = 0x3F6;

pub const ATA_SECONDARY: u16 = 0x170;

pub const ATA_SECONDARY_CTRL: u16 = 0x376;

} // verus!
