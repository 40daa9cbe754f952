//! Largest sector counts of the ATA addressing modes.
use vstd::prelude::*;

verus! {

pub const LBA28_MAX_SECTORS: u64 = 0x10000000;

pub const LBA48_MAX_SECTORS: u64 = 0x1000000000;

} // verus!
