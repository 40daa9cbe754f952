//! Polling limits of the ATA driver.
use vstd::prelude::*;

verus! {

pub const BUSY_TIMEOUT: u32 = 100_000;

pub const DRQ_TIMEOUT: u32 = 30_000;

pub const RESET_DELAY: u32 = 1_000;

} // verus!
