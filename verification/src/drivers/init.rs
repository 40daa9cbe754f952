//! Driver start-up decisions.
use vstd::prelude::*;
use crate::error::{KernelError, KernelResult};

verus! {

/// The outcome of starting the ATA driver given what the driver's own
/// initialisation returned: success when it succeeded, else
/// `DriverFailed`. Whether the boot goes on without a disk is the caller's
/// decision.
pub fn init_ata(ata_init: KernelResult<()>) -> (r: KernelResult<()>)
    ensures
        ata_init is Ok ==> r == Ok::<(), KernelError>(()),
        ata_init is Err ==> r == Err::<(), KernelError>(KernelError::DriverFailed("ATA")),
{
    match ata_init {
        Ok(()) => Ok(()),
        Err(_e) => Err(KernelError::DriverFailed("ATA")),
    }
}

} // verus!
