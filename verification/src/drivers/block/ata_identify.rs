//! Word indices of the ATA IDENTIFY data.
use vstd::prelude::*;

verus! {

pub const IDENTIFY_WORDS: usize = 256;

pub const WORDS_PER_SECTOR: usize = 256;

pub const SERIAL_START: usize = 10;

pub const SERIAL_LEN: usize = 10;

pub const MODEL_START: usize = 27;

pub const MODEL_LEN: usize = 20;

pub const LBA28_CAPACITY_START: usize = 60;

pub const LBA48_SUPPORT_BIT_WORD: usize = 83;

pub const LBA48_SUPPORT_BIT_MASK: u16 = 0x0400;

pub const LBA48_CAPACITY_START: usize = 100;

} // verus!
