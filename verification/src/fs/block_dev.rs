//! Block-device inodes: a disk seen through the file system.
//!
//! Reads and writes go to the device in whole sectors; `sector_request`
//! turns a byte request into the sectors to transfer, and `complete` turns
//! the device's answer into the file-system result.
use vstd::prelude::*;
use crate::drivers::block::BlockDevice;
use crate::error::KernelResult;
use crate::fs::inode::{FilePermissions, FileType, Stat, VfsError};

verus! {

/// An inode standing for the block device `device`.
pub struct BlockDeviceInode<D> {
    pub device: D,
    pub name: String,
    pub stat: Stat,
    pub parent: Option<u64>,
}

/// The attributes of a block device of `num_sectors` sectors of
/// `sector_size` bytes: mode `brw-r--r--`, one link, owned by root.
pub open spec fn block_device_stat(num_sectors: u64, sector_size: usize) -> Stat {
    Stat {
        st_ino: 0,
        st_mode: 0o060644,
        st_nlink: 1,
        st_uid: 0,
        st_gid: 0,
        st_size: (num_sectors * sector_size) as u64,
        st_blksize: sector_size as u32,
        st_blocks: num_sectors,
    }
}

/// The sectors that a transfer of `len` bytes at byte `offset` covers: the
/// first sector and the count (rounded up); requests that do not start on a
/// sector boundary are not supported.
pub open spec fn sector_span(offset: u64, len: usize, sector_size: usize) -> Result<(u64, usize), VfsError> {
    if offset % (sector_size as u64) != 0 {
        Err(VfsError::OperationNotSupported)
    } else {
        Ok(((offset / (sector_size as u64)) as u64, ((len + sector_size - 1) / (sector_size as int)) as usize))
    }
}

/// A block device reports mode `0o060644` (block device, `rw-r--r--`), one
/// link, root as owner, a size of its sectors times their size, its sector
/// size as block size and its sector count as block count.
pub proof fn lemma_block_device_attributes(num_sectors: u64, sector_size: usize)
    requires
        num_sectors * sector_size <= u64::MAX,
        sector_size <= u32::MAX,
    ensures
        block_device_stat(num_sectors, sector_size).st_mode == 0o060644,
        block_device_stat(num_sectors, sector_size).st_nlink == 1,
        block_device_stat(num_sectors, sector_size).st_uid == 0,
        block_device_stat(num_sectors, sector_size).st_gid == 0,
        block_device_stat(num_sectors, sector_size).st_size == num_sectors * sector_size,
        block_device_stat(num_sectors, sector_size).st_blksize == sector_size,
        block_device_stat(num_sectors, sector_size).st_blocks == num_sectors,
{
}

/// A transfer goes to whole sectors: it is refused exactly when the offset
/// is not a multiple of the sector size; otherwise it starts at the sector
/// that begins at `offset` and covers the fewest sectors that hold `len`
/// bytes.
pub proof fn lemma_sector_span_covers(offset: u64, len: usize, sector_size: usize)
    requires
        sector_size > 0,
    ensures
        sector_span(offset, len, sector_size) is Err <==> offset % (sector_size as u64) != 0,
        sector_span(offset, len, sector_size) is Err ==> sector_span(offset, len, sector_size)
            == Err::<(u64, usize), VfsError>(VfsError::OperationNotSupported),
        sector_span(offset, len, sector_size) matches Ok((first, count)) ==> {
            &&& first * sector_size == offset
            &&& count * sector_size >= len
            &&& (count > 0 ==> (count - 1) * sector_size < len)
        },
{
    if offset % (sector_size as u64) == 0 {
        let ss = sector_size as int;
        let off = offset as int;
        let first = off / ss;
        let count = (len + ss - 1) / ss;
        assert(off % ss == offset % (sector_size as u64));
        assert(first == (offset / (sector_size as u64)) as int);
        assert(first * ss == off) by (nonlinear_arith)
            requires
                ss > 0,
                off % ss == 0,
                first == off / ss,
        ;
        assert(count * ss >= len && (count > 0 ==> (count - 1) * ss < len) && count <= len) by (nonlinear_arith)
            requires
                ss > 0,
                len >= 0,
                count == (len + ss - 1) / ss,
        ;
    }
}

impl<D: BlockDevice> BlockDeviceInode<D> {
    /// An inode named `name` for `device`, with the size and the sector
    /// geometry that the device reports.
    pub fn new(name: &str, device: D) -> (r: Self)
        requires
            device.sector_count() * device.sector_bytes() <= u64::MAX,
        ensures
            r.device == device,
            r.name@ == name@,
            r.stat == block_device_stat(device.sector_count(), device.sector_bytes()),
            r.parent is None,
    {
        let num_sectors = device.num_sectors();
        let sector_size = device.sector_size();
        let size = num_sectors * sector_size as u64;
        BlockDeviceInode {
            device,
            name: name.to_owned(),
            stat: Stat {
                st_ino: 0,
                st_mode: 0o060644,
                st_nlink: 1,
                st_uid: 0,
                st_gid: 0,
                st_size: size,
                st_blksize: #[verifier::truncate] (sector_size as u32),
                st_blocks: num_sectors,
            },
            parent: None,
        }
    }
}

impl<D> BlockDeviceInode<D> {
    /// Block devices are of type `BlockDevice`.
    pub fn inode_type(&self) -> (r: FileType)
        ensures
            r == FileType::BlockDevice,
    {
        FileType::BlockDevice
    }

    /// Block devices report the permissions of a new file.
    pub fn permissions(&self) -> (r: FilePermissions)
        ensures
            r.mode == 0o644,
    {
        FilePermissions::default_file()
    }

    /// Returns the attributes.
    pub fn stat(&self) -> (r: Stat)
        ensures
            r == self.stat,
    {
        self.stat
    }

    /// The permissions of a block device cannot be changed: does nothing.
    pub fn set_permissions(&mut self, perms: FilePermissions)
        ensures
            *final(self) == *old(self),
    {
    }

    /// Sets the owning user and group.
    pub fn set_owner(&mut self, uid: u32, gid: u32)
        ensures
            final(self).stat == (Stat { st_uid: uid, st_gid: gid, ..old(self).stat }),
            final(self).device == old(self).device,
            final(self).name == old(self).name,
            final(self).parent == old(self).parent,
    {
        self.stat.st_uid = uid;
        self.stat.st_gid = gid;
    }

    /// The size of a block device cannot be changed: does nothing.
    pub fn set_size(&mut self, size: u64)
        ensures
            *final(self) == *old(self),
    {
    }

    /// Returns the name.
    pub fn name(&self) -> (r: &str)
        ensures
            r@ == self.name@,
    {
        self.name.as_str()
    }

    /// Returns the inode number of the parent, if one was set.
    pub fn parent(&self) -> (r: Option<u64>)
        ensures
            r == self.parent,
    {
        self.parent
    }

    /// Records the inode number of the parent.
    pub fn set_parent(&mut self, parent: Option<u64>)
        ensures
            final(self).parent == parent,
            final(self).device == old(self).device,
            final(self).name == old(self).name,
            final(self).stat == old(self).stat,
    {
        self.parent = parent;
    }
}

impl<D: BlockDevice> BlockDeviceInode<D> {
    /// Reads whole sectors at byte `offset` into `buf`: the device is asked
    /// for the sectors that `sector_span` gives (as many as `buf` spans,
    /// rounded up) and its answer is passed through `transfer_result`; an
    /// offset off a sector boundary is not supported.
    pub fn read(&self, offset: u64, buf: &mut [u8]) -> (r: Result<usize, VfsError>)
        ensures
            final(buf)@.len() == old(buf)@.len(),
            match sector_span(offset, old(buf)@.len() as usize, self.device.sector_bytes()) {
                Err(e) => r == Err::<usize, VfsError>(e) && final(buf)@ == old(buf)@,
                Ok((sector, count)) => exists|d: KernelResult<usize>|
                    #[trigger] self.device.answers_read(sector, count, old(buf)@.len() as usize, d)
                        && r == transfer_result(d),
            },
    {
        let sector_size = self.device.sector_size();
        match sector_request(offset, buf.len(), sector_size) {
            Err(e) => Err(e),
            Ok((start_sector, count)) => complete(self.device.read_sectors(start_sector, count, buf)),
        }
    }

    /// Writes `buf` as whole sectors at byte `offset`: the device is asked to
    /// write the sectors that `sector_span` gives (as many as `buf` spans,
    /// rounded up) and its answer is passed through `transfer_result`; an
    /// offset off a sector boundary is not supported.
    pub fn write(&mut self, offset: u64, buf: &[u8]) -> (r: Result<usize, VfsError>)
        ensures
            match sector_span(offset, buf@.len() as usize, old(self).device.sector_bytes()) {
                Err(e) => r == Err::<usize, VfsError>(e),
                Ok((sector, count)) => exists|d: KernelResult<usize>|
                    #[trigger] old(self).device.answers_write(sector, count, buf, d) && r == transfer_result(d),
            },
            final(self).device == old(self).device,
            final(self).name == old(self).name,
            final(self).stat == old(self).stat,
            final(self).parent == old(self).parent,
    {
        let sector_size = self.device.sector_size();
        match sector_request(offset, buf.len(), sector_size) {
            Err(e) => Err(e),
            Ok((start_sector, count)) => complete(self.device.write_sectors(start_sector, count, buf)),
        }
    }
}

/// The first sector and the sector count of a transfer of `len` bytes at
/// byte `offset` on a device with `sector_size`-byte sectors.
pub fn sector_request(offset: u64, len: usize, sector_size: usize) -> (r: Result<(u64, usize), VfsError>)
    requires
        sector_size > 0,
    ensures
        r == sector_span(offset, len, sector_size),
{
    let ss = sector_size as u64;
    let start_sector = offset / ss;
    let sector_offset = offset % ss;
    if sector_offset != 0 {
        return Err(VfsError::OperationNotSupported);
    }
    let whole = len / sector_size;
    proof {
        lemma_ceil_div(len as int, sector_size as int);
    }
    let count = if len % sector_size != 0 {
        whole + 1
    } else {
        whole
    };
    Ok((start_sector, count))
}

/// Rounding a division up adds one to the quotient exactly when there is a
/// remainder, and the quotient of a remaindered division is below `n`.
proof fn lemma_ceil_div(n: int, d: int)
    requires
        0 <= n,
        0 < d,
    ensures
        (n + d - 1) / d == n / d + if n % d != 0 { 1int } else { 0int },
        n % d != 0 ==> n / d < n,
{
    assert((n + d - 1) / d == n / d + if n % d != 0 { 1int } else { 0int }) by (nonlinear_arith)
        requires 0 <= n, 0 < d,
    {
        let q = n / d;
        let m = n % d;
        assert(n == q * d + m);
        assert(0 <= m < d);
        if m == 0 {
            assert(n + d - 1 == q * d + (d - 1));
        } else {
            assert(n + d - 1 == (q + 1) * d + (m - 1));
        }
    }
    assert(n % d != 0 ==> n / d < n) by (nonlinear_arith)
        requires 0 <= n, 0 < d,
    {
    }
}

/// The file-system result of a device answer `r`: the byte count, or an
/// I/O error whatever the device reported.
pub open spec fn transfer_result(r: KernelResult<usize>) -> Result<usize, VfsError> {
    match r {
        Ok(n) => Ok(n),
        Err(_) => Err(VfsError::IoError),
    }
}

/// A device answer reaches the file system unchanged when it is a byte
/// count, and as an I/O error whatever error the device reported.
pub proof fn lemma_transfer_result(n: usize, e: crate::error::KernelError)
    ensures
        transfer_result(Ok(n)) == Ok::<usize, VfsError>(n),
        transfer_result(Err(e)) == Err::<usize, VfsError>(VfsError::IoError),
{
}

/// The file-system result of a device transfer: the byte count, or an I/O
/// error whatever the device reported.
pub fn complete(r: KernelResult<usize>) -> (out: Result<usize, VfsError>)
    ensures
        out == transfer_result(r),
{
    match r {
        Ok(bytes) => Ok(bytes),
        Err(_) => Err(VfsError::IoError),
    }
}

} // verus!
