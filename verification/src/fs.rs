//! Virtual file system: inode types, the in-memory file systems, open files
//! and descriptor tables.

pub mod inode;
pub mod tmpfs;
pub mod initramfs;
pub mod file;
pub mod dentry;
pub mod block_dev;
