//! Inode types shared by the file systems and the inode interface.
use vstd::prelude::*;

verus! {

/// Preferred I/O block size reported in `st_blksize`.
pub const BLOCK_SIZE: u32 = 4096;

/// Size of a disk sector; `st_blocks` counts sectors.
pub const SECTOR_SIZE: u64 = 512;

/// Largest size, in bytes, that in-memory file data may reach: the largest
/// allocation that a `Vec<u8>` can make.
pub open spec fn max_data_len() -> int {
    isize::MAX as int
}

/// The type of an inode.
#[derive(Debug, Clone, Copy, PartialEq, Eq, Structural)]
pub enum FileType {
    RegularFile,
    Directory,
    Symlink,
    BlockDevice,
}

/// File-type bits of `st_mode`.
#[derive(Debug, Clone, Copy, PartialEq, Eq, Structural)]
pub enum FileModeKind {
    RegularFile,
    Directory,
    Symlink,
    BlockDevice,
}

/// The `st_mode` bits of each file-type kind.
pub open spec fn mode_kind_bits(k: FileModeKind) -> u32 {
    match k {
        FileModeKind::RegularFile => 0o100000,
        FileModeKind::Directory => 0o040000,
        FileModeKind::Symlink => 0o120000,
        FileModeKind::BlockDevice => 0o060000,
    }
}

impl FileModeKind {
    /// Returns the `st_mode` bits of this kind.
    pub fn bits(&self) -> (r: u32)
        ensures
            r == mode_kind_bits(*self),
    {
        match self {
            FileModeKind::RegularFile => 0o100000,
            FileModeKind::Directory => 0o040000,
            FileModeKind::Symlink => 0o120000,
            FileModeKind::BlockDevice => 0o060000,
        }
    }
}

/// Access permissions of an inode (the rwx bits of its mode).
#[derive(Debug, Clone, Copy, PartialEq, Eq, Structural)]
pub struct FilePermissions {
    pub mode: u16,
}

impl FilePermissions {
    /// `rw-r--r--`, the permissions of a new file.
    pub fn default_file() -> (r: Self)
        ensures
            r.mode == 0o644,
    {
        FilePermissions { mode: 0o644 }
    }

    /// `rwxr-xr-x`, the permissions of a new directory.
    pub fn default_directory() -> (r: Self)
        ensures
            r.mode == 0o755,
    {
        FilePermissions { mode: 0o755 }
    }
}

/// Inode attributes.
#[derive(Debug, Clone, Copy, PartialEq, Eq, Structural)]
pub struct Stat {
    pub st_ino: u64,
    pub st_mode: u32,
    pub st_nlink: u32,
    pub st_uid: u32,
    pub st_gid: u32,
    pub st_size: u64,
    pub st_blksize: u32,
    pub st_blocks: u64,
}

/// Errors of file-system operations.
#[derive(Debug, Clone, Copy, PartialEq, Eq, Structural)]
pub enum VfsError {
    NotFound,
    PermissionDenied,
    Exists,
    NotEmpty,
    IsDirectory,
    NotADirectory,
    FileTooLarge,
    NoSpaceLeft,
    InvalidFilename,
    InvalidSeek,
    OperationNotSupported,
    IoError,
    Busy,
}

/// Where a seek is measured from.
#[derive(Debug, Clone, Copy, PartialEq, Eq, Structural)]
pub enum SeekFrom {
    Start(u64),
    End(i64),
    Current(i64),
}

/// One entry returned by reading a directory.
#[derive(Debug)]
pub struct DirEntry {
    pub inode: u64,
    pub offset: u64,
    pub name: String,
    pub file_type: FileType,
}

/// Number of sectors that `size` bytes occupy (rounded up).
pub open spec fn sectors_for(size: u64) -> int {
    (size + SECTOR_SIZE - 1) / (SECTOR_SIZE as int)
}

/// Computes `sectors_for(size)` without overflowing for any size.
pub fn blocks_for_size(size: u64) -> (r: u64)
    ensures
        r == sectors_for(size),
{
    let whole = size / SECTOR_SIZE;
    if size % SECTOR_SIZE != 0 {
        whole + 1
    } else {
        whole
    }
}

/// The bytes that a read of at most `len` bytes at `offset` of `data` returns:
/// nothing at or past the end, else as many as there are, up to `len`.
pub open spec fn read_bytes(data: Seq<u8>, offset: u64, len: nat) -> Seq<u8> {
    if offset >= data.len() {
        Seq::empty()
    } else {
        let avail = data.len() - offset;
        let n = if len < avail { len as int } else { avail };
        data.subrange(offset as int, offset + n)
    }
}

/// `data` after writing `bytes` at `offset`: the data grows, zero-filled, to
/// reach the end of the write when it is shorter.
pub open spec fn write_bytes(data: Seq<u8>, offset: u64, bytes: Seq<u8>) -> Seq<u8> {
    let end = offset + bytes.len();
    let new_len = if end > data.len() { end } else { data.len() as int };
    Seq::new(
        new_len as nat,
        |i: int|
            if offset <= i < end {
                bytes[i - offset]
            } else if i < data.len() {
                data[i]
            } else {
                0u8
            },
    )
}

/// `data` cut or zero-extended to `size` bytes.
pub open spec fn resize_bytes(data: Seq<u8>, size: nat) -> Seq<u8> {
    Seq::new(size, |i: int| if i < data.len() { data[i] } else { 0u8 })
}

/// The `st_mode` file-type bits, as POSIX numbers them: regular file
/// `0o100000`, directory `0o040000`, symbolic link `0o120000`, block device
/// `0o060000`; no two kinds share bits.
pub proof fn lemma_mode_kind_bits()
    ensures
        mode_kind_bits(FileModeKind::RegularFile) == 0o100000,
        mode_kind_bits(FileModeKind::Directory) == 0o040000,
        mode_kind_bits(FileModeKind::Symlink) == 0o120000,
        mode_kind_bits(FileModeKind::BlockDevice) == 0o060000,
{
}

/// `sectors_for(size)` is the number of whole 512-byte sectors that hold
/// `size` bytes: enough of them, and one fewer would not be enough.
pub proof fn lemma_sectors_for_is_ceiling(size: u64)
    ensures
        sectors_for(size) * 512 >= size,
        sectors_for(size) >= 0,
        sectors_for(size) > 0 ==> (sectors_for(size) - 1) * 512 < size,
        size == 0 ==> sectors_for(size) == 0,
{
    let n = sectors_for(size);
    assert(n * 512 >= size && (n > 0 ==> (n - 1) * 512 < size) && n >= 0) by (nonlinear_arith)
        requires
            n == (size + 511) / 512,
            size >= 0,
    ;
}

/// A read returns the bytes of the data from `offset` on, as many as the
/// buffer holds and the data has: none at or past the end.
pub proof fn lemma_read_bytes(data: Seq<u8>, offset: u64, len: nat)
    ensures
        read_bytes(data, offset, len).len() == if offset >= data.len() {
            0
        } else if len < data.len() - offset {
            len as int
        } else {
            data.len() - offset
        },
        forall|i: int|
            0 <= i < read_bytes(data, offset, len).len() ==> #[trigger] read_bytes(data, offset, len)[i] == data[offset
                + i],
{
}

/// A write at `offset` puts `bytes` at `offset .. offset + bytes.len()`,
/// keeps every other byte of the data, fills a gap between the old end and
/// `offset` with zeros, and leaves the data as long as the longer of the old
/// data and the end of the write.
pub proof fn lemma_write_bytes(data: Seq<u8>, offset: u64, bytes: Seq<u8>)
    ensures
        write_bytes(data, offset, bytes).len() == if offset + bytes.len() > data.len() {
            offset + bytes.len()
        } else {
            data.len() as int
        },
        forall|i: int| 0 <= i < bytes.len() ==> #[trigger] write_bytes(data, offset, bytes)[offset + i] == bytes[i],
        forall|i: int|
            0 <= i < data.len() && !(offset <= i < offset + bytes.len()) ==> #[trigger] write_bytes(
                data,
                offset,
                bytes,
            )[i] == data[i],
        forall|i: int| data.len() <= i < offset ==> #[trigger] write_bytes(data, offset, bytes)[i] == 0u8,
{
}

/// Resizing keeps the first `size` bytes (as far as there are any) and pads
/// with zeros up to `size`.
pub proof fn lemma_resize_bytes(data: Seq<u8>, size: nat)
    ensures
        resize_bytes(data, size).len() == size,
        forall|i: int| 0 <= i < size && i < data.len() ==> #[trigger] resize_bytes(data, size)[i] == data[i],
        forall|i: int| data.len() <= i < size ==> #[trigger] resize_bytes(data, size)[i] == 0u8,
{
}

/// Hands out inode numbers, counting up from 1; 0 is never handed out, and
/// each number is larger than every number the counter handed out before.
pub struct InodeCounter {
    next: u64,
    issued: Ghost<Set<u64>>,
}

impl InodeCounter {
    /// The number that the counter hands out next.
    pub closed spec fn next_number(&self) -> u64 {
        self.next
    }

    /// The numbers that the counter has handed out.
    pub closed spec fn issued(&self) -> Set<u64> {
        self.issued@
    }

    /// The counter never stands at 0, and every number it handed out lies
    /// between 1 and the number it hands out next.
    #[verifier::type_invariant]
    spec fn numbers_below_next(&self) -> bool {
        &&& self.next >= 1
        &&& forall|i: u64| #[trigger] self.issued@.contains(i) ==> 1 <= i < self.next
    }

    /// A counter whose first number is 1, which has handed out nothing.
    pub fn new() -> (r: Self)
        ensures
            r.next_number() == 1,
            r.issued() == Set::<u64>::empty(),
    {
        InodeCounter { next: 1, issued: Ghost(Set::empty()) }
    }

    /// Returns the number that the counter hands out next, without taking
    /// it: at least 1 and larger than every number handed out so far.
    pub fn peek(&self) -> (r: u64)
        ensures
            r == self.next_number(),
            r >= 1,
            forall|i: u64| #[trigger] self.issued().contains(i) ==> 1 <= i < r,
    {
        proof {
            use_type_invariant(self);
        }
        self.next
    }

    /// Returns the next inode number and advances the counter: the number is
    /// at least 1 and larger than every number handed out before, so no two
    /// numbers of one counter are equal.
    pub fn next_ino(&mut self) -> (r: u64)
        requires
            old(self).next_number() < u64::MAX,
        ensures
            r == old(self).next_number(),
            r >= 1,
            forall|i: u64| #[trigger] old(self).issued().contains(i) ==> i < r,
            final(self).issued() == old(self).issued().insert(r),
            final(self).next_number() == old(self).next_number() + 1,
    {
        proof {
            use_type_invariant(&*self);
        }
        let ino = self.next;
        self.next = self.next + 1;
        self.issued = Ghost(self.issued@.insert(ino));
        ino
    }
}

/// The data interface of an inode, as seen through an open file.
///
/// `read_spec`, `write_spec` and `truncate_spec` say, for each
/// implementation, what a read returns and what a write or truncate does.
pub trait Inode: Sized {
    /// The type of the inode.
    spec fn kind(&self) -> FileType;

    /// The attributes of the inode.
    spec fn attrs(&self) -> Stat;

    /// What a read at `offset` into a buffer of `len` bytes returns: the
    /// bytes that are copied to the front of the buffer, or an error.
    spec fn read_spec(&self, offset: u64, len: nat) -> Result<Seq<u8>, VfsError>;

    /// Whether writing `len` bytes at `offset` stays within the limits of the machine.
    spec fn can_write(&self, offset: u64, len: nat) -> bool;

    /// Relates the inode before a write of `data` at `offset`, the inode after
    /// it and the result of the write.
    spec fn write_spec(&self, offset: u64, data: Seq<u8>, after: Self, r: Result<usize, VfsError>) -> bool;

    /// Whether truncating to `size` stays within the limits of the machine.
    spec fn can_truncate(&self, size: u64) -> bool;

    /// Relates the inode before a truncation to `size`, after it, and the result.
    spec fn truncate_spec(&self, size: u64, after: Self, r: Result<(), VfsError>) -> bool;

    /// Returns the type of the inode.
    fn inode_type(&self) -> (r: FileType)
        ensures
            r == self.kind(),
    ;

    /// Returns the attributes of the inode.
    fn stat(&self) -> (r: Stat)
        ensures
            r == self.attrs(),
    ;

    /// Reads from `offset` into `buf`; returns the number of bytes read.
    fn read(&self, offset: u64, buf: &mut [u8]) -> (r: Result<usize, VfsError>)
        ensures
            final(buf)@.len() == old(buf)@.len(),
            match self.read_spec(offset, old(buf)@.len()) {
                Ok(bytes) => {
                    &&& bytes.len() <= old(buf)@.len()
                    &&& offset + bytes.len() <= u64::MAX
                    &&& r is Ok
                    &&& r->Ok_0 == bytes.len()
                    &&& final(buf)@ == bytes + old(buf)@.skip(bytes.len() as int)
                },
                Err(e) => r == Err::<usize, VfsError>(e) && final(buf)@ == old(buf)@,
            },
    ;

    /// Writes `buf` at `offset`; returns the number of bytes written.
    fn write(&mut self, offset: u64, buf: &[u8]) -> (r: Result<usize, VfsError>)
        requires
            old(self).can_write(offset, buf@.len()),
        ensures
            old(self).write_spec(offset, buf@, *final(self), r),
            r matches Ok(n) ==> n <= buf@.len(),
    ;

    /// Sets the size of the data of the inode to `size`.
    fn truncate(&mut self, size: u64) -> (r: Result<(), VfsError>)
        requires
            old(self).can_truncate(size),
        ensures
            old(self).truncate_spec(size, *final(self), r),
    ;

    /// Flushes the inode to its backing store; in-memory inodes have none.
    fn sync(&self) -> (r: Result<(), VfsError>)
        ensures
            r == Ok::<(), VfsError>(()),
    ;
}

} // verus!
