//! Device drivers: the block-device layer and the ATA disk protocol.

pub mod block;
pub mod ata;
pub mod init;
