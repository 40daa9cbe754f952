//! Open files and per-process descriptor tables.
use vstd::prelude::*;
use crate::fs::inode::{FileType, Inode, SeekFrom, Stat, VfsError};
use crate::fs::tmpfs::{lemma_read_after_write, TmpfsInode};

verus! {

/// How a file was opened.
#[derive(Debug, Clone, Copy, PartialEq, Eq, Structural)]
pub struct FileFlags {
    pub read: bool,
    pub write: bool,
    pub append: bool,
    pub sync: bool,
    pub async_flag: bool,
    pub direct: bool,
    pub no_terminal: bool,
    pub truncate: bool,
    pub create: bool,
    pub exclusive: bool,
}

/// The flags with every option off.
pub open spec fn no_flags() -> FileFlags {
    FileFlags {
        read: false,
        write: false,
        append: false,
        sync: false,
        async_flag: false,
        direct: false,
        no_terminal: false,
        truncate: false,
        create: false,
        exclusive: false,
    }
}

impl FileFlags {
    /// No access and no options.
    pub fn empty() -> (r: Self)
        ensures
            r == no_flags(),
    {
        FileFlags {
            read: false,
            write: false,
            append: false,
            sync: false,
            async_flag: false,
            direct: false,
            no_terminal: false,
            truncate: false,
            create: false,
            exclusive: false,
        }
    }

    /// Read access only.
    pub fn read_only() -> (r: Self)
        ensures
            r == (FileFlags { read: true, write: false, ..no_flags() }),
    {
        FileFlags { read: true, write: false, ..Self::empty() }
    }

    /// Write access only.
    pub fn write_only() -> (r: Self)
        ensures
            r == (FileFlags { read: false, write: true, ..no_flags() }),
    {
        FileFlags { read: false, write: true, ..Self::empty() }
    }

    /// Read and write access.
    pub fn read_write() -> (r: Self)
        ensures
            r == (FileFlags { read: true, write: true, ..no_flags() }),
    {
        FileFlags { read: true, write: true, ..Self::empty() }
    }

    /// Read and write access, every write going to the end of the file.
    pub fn append() -> (r: Self)
        ensures
            r == (FileFlags { read: true, write: true, append: true, ..no_flags() }),
    {
        FileFlags { read: true, write: true, append: true, ..Self::empty() }
    }
}

/// An open file: an inode, a position in it and the flags it was opened with.
pub struct File<I> {
    pub inode: I,
    pub offset: u64,
    pub flags: FileFlags,
    pub file_type: FileType,
}

/// Where a seek from `offset` in a file of `size` bytes lands, or why it fails.
pub open spec fn seek_target(offset: u64, size: u64, pos: SeekFrom) -> Result<u64, VfsError> {
    match pos {
        SeekFrom::Start(o) => Ok(o),
        SeekFrom::End(o) => if o < 0 {
            if -o > size {
                Err(VfsError::InvalidSeek)
            } else {
                Ok((size + o) as u64)
            }
        } else if size + o > u64::MAX {
            Ok(u64::MAX)
        } else {
            Ok((size + o) as u64)
        },
        SeekFrom::Current(o) => if o < 0 {
            if -o > offset {
                Err(VfsError::InvalidSeek)
            } else {
                Ok((offset + o) as u64)
            }
        } else {
            Ok((offset + o) as u64)
        },
    }
}

impl<I: Inode> File<I> {
    /// The position at which a write of this file lands: the end of the
    /// file in append mode, else the current offset.
    pub open spec fn write_position(&self) -> u64 {
        if self.flags.append {
            self.inode.attrs().st_size
        } else {
            self.offset
        }
    }

    /// What a read into a buffer holding `buf` does: `after` is the file
    /// afterwards, `out` the buffer afterwards and `r` the result.
    pub open spec fn read_outcome(&self, buf: Seq<u8>, after: Self, out: Seq<u8>, r: Result<usize, VfsError>) -> bool {
        if !self.flags.read {
            r == Err::<usize, VfsError>(VfsError::PermissionDenied) && after == *self && out == buf
        } else if self.file_type == FileType::Directory {
            r == Err::<usize, VfsError>(VfsError::IsDirectory) && after == *self && out == buf
        } else {
            match self.inode.read_spec(self.offset, buf.len()) {
                Ok(bytes) => {
                    &&& r is Ok
                    &&& r->Ok_0 == bytes.len()
                    &&& out == bytes + buf.skip(bytes.len() as int)
                    &&& after == (File { offset: (self.offset + bytes.len()) as u64, ..*self })
                },
                Err(e) => r == Err::<usize, VfsError>(e) && after == *self && out == buf,
            }
        }
    }

    /// What a write of `data` does: `after` is the file afterwards and `r`
    /// the result.
    pub open spec fn write_outcome(&self, data: Seq<u8>, after: Self, r: Result<usize, VfsError>) -> bool {
        if !self.flags.write {
            r == Err::<usize, VfsError>(VfsError::PermissionDenied) && after == *self
        } else if self.file_type == FileType::Directory {
            r == Err::<usize, VfsError>(VfsError::IsDirectory) && after == *self
        } else {
            &&& self.inode.write_spec(self.write_position(), data, after.inode, r)
            &&& after.flags == self.flags
            &&& after.file_type == self.file_type
            &&& after.offset == match r {
                Ok(n) => (self.offset + n) as u64,
                Err(_) => self.offset,
            }
        }
    }

    /// Opens `inode` with `flags`, at offset 0.
    pub fn new(inode: I, flags: FileFlags) -> (r: Self)
        ensures
            r.inode == inode,
            r.offset == 0,
            r.flags == flags,
            r.file_type == inode.kind(),
    {
        let file_type = inode.inode_type();
        File { inode, offset: 0, flags, file_type }
    }

    /// Reads from the current offset into `buf` and advances the offset by
    /// the number of bytes read.
    pub fn read(&mut self, buf: &mut [u8]) -> (r: Result<usize, VfsError>)
        ensures
            old(self).read_outcome(old(buf)@, *final(self), final(buf)@, r),
    {
        if !self.flags.read {
            return Err(VfsError::PermissionDenied);
        }
        if self.file_type == FileType::Directory {
            return Err(VfsError::IsDirectory);
        }
        let ghost before = *self;
        let n = match self.inode.read(self.offset, buf) {
            Ok(n) => n,
            Err(e) => return Err(e),
        };
        self.offset = self.offset + n as u64;
        proof {
            let bytes = before.inode.read_spec(before.offset, old(buf)@.len())->Ok_0;
            assert(bytes.len() == n);
            assert(*self == File { offset: (before.offset + bytes.len()) as u64, ..before });
        }
        Ok(n)
    }

    /// Writes `buf` at the current offset (at the end of the file in append
    /// mode) and advances the offset by the number of bytes written.
    pub fn write(&mut self, buf: &[u8]) -> (r: Result<usize, VfsError>)
        requires
            old(self).offset + buf@.len() <= u64::MAX,
            old(self).flags.write && old(self).file_type != FileType::Directory
                ==> old(self).inode.can_write(old(self).write_position(), buf@.len()),
        ensures
            old(self).write_outcome(buf@, *final(self), r),
    {
        if !self.flags.write {
            return Err(VfsError::PermissionDenied);
        }
        if self.file_type == FileType::Directory {
            return Err(VfsError::IsDirectory);
        }
        let mut offset = self.offset;
        if self.flags.append {
            let stat = self.inode.stat();
            offset = stat.st_size;
        }
        let n = match self.inode.write(offset, buf) {
            Ok(n) => n,
            Err(e) => return Err(e),
        };
        self.offset = self.offset + n as u64;
        Ok(n)
    }

    /// Moves the offset as `pos` says and returns the new offset.
    pub fn seek(&mut self, pos: SeekFrom) -> (r: Result<u64, VfsError>)
        requires
            pos != SeekFrom::End(i64::MIN),
            pos != SeekFrom::Current(i64::MIN),
            pos matches SeekFrom::Current(o) ==> (o >= 0 ==> old(self).offset + o <= u64::MAX),
        ensures
            r == seek_target(old(self).offset, old(self).inode.attrs().st_size, pos),
            *final(self) == (match r {
                Ok(o) => File { offset: o, ..*old(self) },
                Err(_) => *old(self),
            }),
    {
        let stat = self.inode.stat();
        let file_size = stat.st_size;
        let new_offset = match pos {
            SeekFrom::Start(offset) => offset,
            SeekFrom::End(offset) => {
                if offset < 0 {
                    let back = (-offset) as u64;
                    if back > file_size {
                        return Err(VfsError::InvalidSeek);
                    }
                    file_size - back
                } else {
                    file_size.saturating_add(offset as u64)
                }
            },
            SeekFrom::Current(offset) => {
                if offset < 0 {
                    let back = (-offset) as u64;
                    if back > self.offset {
                        return Err(VfsError::InvalidSeek);
                    }
                    self.offset - back
                } else {
                    self.offset + (offset as u64)
                }
            },
        };
        self.offset = new_offset;
        Ok(self.offset)
    }

    /// Cuts (or zero-extends) the file at the current offset.
    pub fn truncate(&mut self) -> (r: Result<(), VfsError>)
        requires
            old(self).flags.write ==> old(self).inode.can_truncate(old(self).offset),
        ensures
            !old(self).flags.write ==> r == Err::<(), VfsError>(VfsError::PermissionDenied) && *final(self) == *old(self),
            old(self).flags.write ==> {
                &&& old(self).inode.truncate_spec(old(self).offset, final(self).inode, r)
                &&& final(self).offset == old(self).offset
                &&& final(self).flags == old(self).flags
                &&& final(self).file_type == old(self).file_type
            },
    {
        if !self.flags.write {
            return Err(VfsError::PermissionDenied);
        }
        self.inode.truncate(self.offset)
    }

    /// Flushes the inode.
    pub fn sync(&self) -> (r: Result<(), VfsError>)
        ensures
            r == Ok::<(), VfsError>(()),
    {
        self.inode.sync()
    }

    /// Returns the attributes of the inode.
    pub fn stat(&self) -> (r: Stat)
        ensures
            r == self.inode.attrs(),
    {
        self.inode.stat()
    }

    /// Whether the file was opened for reading.
    pub fn is_readable(&self) -> (r: bool)
        ensures
            r == self.flags.read,
    {
        self.flags.read
    }

    /// Whether the file was opened for writing.
    pub fn is_writable(&self) -> (r: bool)
        ensures
            r == self.flags.write,
    {
        self.flags.write
    }

    /// Whether the file was opened in append mode.
    pub fn is_append(&self) -> (r: bool)
        ensures
            r == self.flags.append,
    {
        self.flags.append
    }

    /// Whether the file is a directory.
    pub fn is_directory(&self) -> (r: bool)
        ensures
            r == (self.file_type == FileType::Directory),
    {
        self.file_type == FileType::Directory
    }
}

/// Seeking: from the start, to the given offset; from the current offset or
/// the end, by a signed distance, refused when it would go below 0; moving
/// forward from the end stops at the largest offset.
pub proof fn lemma_seek_cases(offset: u64, size: u64, o: u64, k: i64)
    ensures
        seek_target(offset, size, SeekFrom::Start(o)) == Ok::<u64, VfsError>(o),
        k >= 0 && offset + k <= u64::MAX ==> seek_target(offset, size, SeekFrom::Current(k)) == Ok::<u64, VfsError>(
            (offset + k) as u64,
        ),
        k < 0 && offset + k >= 0 ==> seek_target(offset, size, SeekFrom::Current(k)) == Ok::<u64, VfsError>(
            (offset + k) as u64,
        ),
        offset + k < 0 ==> seek_target(offset, size, SeekFrom::Current(k)) == Err::<u64, VfsError>(
            VfsError::InvalidSeek,
        ),
        0 <= size + k <= u64::MAX ==> seek_target(offset, size, SeekFrom::End(k)) == Ok::<u64, VfsError>(
            (size + k) as u64,
        ),
        size + k > u64::MAX ==> seek_target(offset, size, SeekFrom::End(k)) == Ok::<u64, VfsError>(u64::MAX),
        size + k < 0 ==> seek_target(offset, size, SeekFrom::End(k)) == Err::<u64, VfsError>(VfsError::InvalidSeek),
{
}

/// The flags with every option off have every field false.
pub proof fn lemma_no_flags()
    ensures
        !no_flags().read && !no_flags().write && !no_flags().append && !no_flags().sync,
        !no_flags().async_flag && !no_flags().direct && !no_flags().no_terminal,
        !no_flags().truncate && !no_flags().create && !no_flags().exclusive,
{
}

/// A handle on an open file description, shared by every descriptor that
/// refers to it.
#[derive(Debug, Clone, Copy, PartialEq, Eq, Structural)]
pub struct FileRef {
    pub id: u64,
}

/// A per-process table from file descriptors to open files.
pub struct FileTable {
    files: Vec<Option<FileRef>>,
    max_fd: usize,
}

/// The index of the first free slot of `s`, if there is one.
pub open spec fn first_free(s: Seq<Option<FileRef>>) -> Option<int> {
    if exists|i: int| 0 <= i < s.len() && s[i] is None {
        Some(choose|i: int| 0 <= i < s.len() && s[i] is None && forall|j: int| 0 <= j < i ==> s[j] is Some)
    } else {
        None
    }
}

/// The file that descriptor `fd` refers to in slots `s`.
pub open spec fn slot_file(s: Seq<Option<FileRef>>, fd: int) -> Option<FileRef> {
    if 0 <= fd < s.len() {
        s[fd]
    } else {
        None
    }
}

/// The slots after allocating a descriptor for `file`, and the descriptor.
pub open spec fn allocate_spec(s: Seq<Option<FileRef>>, max_fd: usize, file: FileRef) -> (Seq<Option<FileRef>>, Option<usize>) {
    match first_free(s) {
        Some(i) => (s.update(i, Some(file)), Some(i as usize)),
        None => if s.len() < max_fd {
            (s.push(Some(file)), Some(s.len() as usize))
        } else {
            (s, None)
        },
    }
}

impl FileTable {
    /// The slots of the table: slot `fd` holds the file of descriptor `fd`.
    pub closed spec fn slots(&self) -> Seq<Option<FileRef>> {
        self.files@
    }

    /// The number of slots the table may grow to by allocation.
    pub closed spec fn limit(&self) -> usize {
        self.max_fd
    }

    /// An empty table that grows to at most 64 descriptors.
    pub fn new() -> (r: Self)
        ensures
            r.slots() == Seq::<Option<FileRef>>::empty(),
            r.limit() == 64,
    {
        FileTable { files: Vec::new(), max_fd: 64 }
    }

    /// An empty table that grows to at most `capacity` descriptors.
    pub fn with_capacity(capacity: usize) -> (r: Self)
        ensures
            r.slots() == Seq::<Option<FileRef>>::empty(),
            r.limit() == capacity,
    {
        FileTable { files: Vec::with_capacity(capacity), max_fd: capacity }
    }

    /// Gives `file` the lowest free descriptor, growing the table when no
    /// slot is free and the limit allows; `None` when the table is full.
    pub fn allocate_fd(&mut self, file: FileRef) -> (r: Option<usize>)
        ensures
            (final(self).slots(), r) == allocate_spec(old(self).slots(), old(self).limit(), file),
            final(self).limit() == old(self).limit(),
    {
        let mut fd: usize = 0;
        while fd < self.files.len()
            invariant
                fd <= self.files@.len(),
                self.files@ == old(self).files@,
                self.max_fd == old(self).max_fd,
                forall|j: int| 0 <= j < fd ==> self.files@[j] is Some,
            decreases self.files@.len() - fd,
        {
            if self.files[fd].is_none() {
                self.files.set(fd, Some(file));
                proof {
                    let s = old(self).files@;
                    assert(s[fd as int] is None);
                    let k = choose|i: int| 0 <= i < s.len() && s[i] is None && forall|j: int| 0 <= j < i ==> s[j] is Some;
                    assert(k == fd) by {
                        if k < fd {
                            assert(s[k] is Some);
                        } else if k > fd {
                            assert(s[fd as int] is Some);
                        }
                    }
                }
                return Some(fd);
            }
            fd = fd + 1;
        }
        proof {
            assert(first_free(old(self).files@) is None);
        }
        if self.files.len() < self.max_fd {
            let fd = self.files.len();
            self.files.push(Some(file));
            Some(fd)
        } else {
            None
        }
    }

    /// Returns the file of descriptor `fd`.
    pub fn get(&self, fd: usize) -> (r: Option<FileRef>)
        ensures
            r == slot_file(self.slots(), fd as int),
    {
        if fd < self.files.len() {
            self.files[fd]
        } else {
            None
        }
    }

    /// Takes the file out of descriptor `fd`, leaving the slot free.
    pub fn put(&mut self, fd: usize) -> (r: Option<FileRef>)
        ensures
            r == slot_file(old(self).slots(), fd as int),
            final(self).slots() == if fd < old(self).slots().len() {
                old(self).slots().update(fd as int, None)
            } else {
                old(self).slots()
            },
            final(self).limit() == old(self).limit(),
    {
        if fd < self.files.len() {
            let f = self.files[fd];
            self.files.set(fd, None);
            f
        } else {
            None
        }
    }

    /// Gives the file of `fd` a second descriptor, the lowest free one.
    pub fn dup(&mut self, fd: usize) -> (r: Option<usize>)
        ensures
            match slot_file(old(self).slots(), fd as int) {
                Some(f) => (final(self).slots(), r) == allocate_spec(old(self).slots(), old(self).limit(), f),
                None => r is None && final(self).slots() == old(self).slots(),
            },
            final(self).limit() == old(self).limit(),
    {
        let file = match self.get(fd) {
            Some(f) => f,
            None => return None,
        };
        self.allocate_fd(file)
    }

    /// Makes `new_fd` refer to the file of `fd`, growing the table as far as
    /// needed (beyond the limit too); returns `new_fd`.
    pub fn dup2(&mut self, fd: usize, new_fd: usize) -> (r: Option<usize>)
        requires
            new_fd < usize::MAX,
        ensures
            match slot_file(old(self).slots(), fd as int) {
                Some(f) => {
                    let grown = if new_fd < old(self).slots().len() {
                        old(self).slots()
                    } else {
                        old(self).slots() + Seq::new((new_fd + 1 - old(self).slots().len()) as nat, |i: int| None::<FileRef>)
                    };
                    r == Some(new_fd) && final(self).slots() == grown.update(new_fd as int, Some(f))
                },
                None => r is None && final(self).slots() == old(self).slots(),
            },
            final(self).limit() == old(self).limit(),
    {
        if fd >= self.files.len() {
            return None;
        }
        let file = match self.files[fd] {
            Some(f) => f,
            None => return None,
        };
        let ghost before = self.files@;
        if new_fd >= self.files.len() {
            self.files.resize(new_fd + 1, None);
            proof {
                let grown = before + Seq::new((new_fd + 1 - before.len()) as nat, |i: int| None::<FileRef>);
                assert forall|i: int| 0 <= i < grown.len() implies self.files@[i] == grown[i] by {
                    if i < before.len() {
                        assert(self.files@.subrange(0, before.len() as int)[i] == before[i]);
                    } else {
                        assert(vstd::pervasive::cloned::<Option<FileRef>>(None, self.files@[i]));
                    }
                }
                assert(self.files@ =~= grown);
            }
        }
        self.files.set(new_fd, Some(file));
        Some(new_fd)
    }

    /// Closes descriptor `fd`, returning the file it referred to.
    pub fn close(&mut self, fd: usize) -> (r: Option<FileRef>)
        ensures
            r == slot_file(old(self).slots(), fd as int),
            final(self).slots() == if fd < old(self).slots().len() {
                old(self).slots().update(fd as int, None)
            } else {
                old(self).slots()
            },
            final(self).limit() == old(self).limit(),
    {
        self.put(fd)
    }

    /// File-control commands are not supported.
    pub fn fcntl(&self, fd: usize, cmd: u64, arg: u64) -> (r: Result<u64, VfsError>)
        ensures
            r == Err::<u64, VfsError>(VfsError::OperationNotSupported),
    {
        Err(VfsError::OperationNotSupported)
    }
}

impl Default for FileTable {
    fn default() -> (r: Self)
        ensures
            r.slots() == Seq::<Option<FileRef>>::empty(),
            r.limit() == 64,
    {
        Self::new()
    }
}

/// A new descriptor refers to its file: after `allocate_fd` hands out `fd`,
/// descriptor `fd` refers to `file`, `fd` was the lowest free slot (or the
/// end of the table) and every other descriptor is unchanged.
pub proof fn lemma_get_after_allocate(s: Seq<Option<FileRef>>, max_fd: usize, file: FileRef)
    requires
        s.len() <= usize::MAX,
        allocate_spec(s, max_fd, file).1 is Some,
    ensures
        ({
            let (s2, r) = allocate_spec(s, max_fd, file);
            let fd = r->Some_0 as int;
            &&& slot_file(s2, fd) == Some(file)
            &&& (fd < s.len() ==> s[fd] is None)
            &&& (fd == s.len() || fd < s.len())
            &&& forall|j: int| 0 <= j < fd ==> (#[trigger] s[j]) is Some
            &&& forall|j: int| j != fd ==> slot_file(s2, j) == #[trigger] slot_file(s, j)
        }),
{
    match first_free(s) {
        Some(i) => {
            assert(exists|i: int| 0 <= i < s.len() && s[i] is None);
            let w = choose|i: int| 0 <= i < s.len() && s[i] is None;
            lemma_first_free_exists(s, w);
        },
        None => {
            assert forall|j: int| 0 <= j < s.len() implies (#[trigger] s[j]) is Some by {
                if s[j] is None {
                    assert(exists|i: int| 0 <= i < s.len() && s[i] is None);
                }
            }
        },
    }
}

/// When `s` has a free slot, `first_free` picks the lowest one.
proof fn lemma_first_free_exists(s: Seq<Option<FileRef>>, w: int)
    requires
        0 <= w < s.len(),
        s[w] is None,
    ensures
        first_free(s) is Some,
        ({
            let i = first_free(s)->Some_0;
            0 <= i < s.len() && s[i] is None && forall|j: int| 0 <= j < i ==> (#[trigger] s[j]) is Some
        }),
    decreases w,
{
    if exists|k: int| 0 <= k < w && s[k] is None {
        let k = choose|k: int| 0 <= k < w && s[k] is None;
        lemma_first_free_exists(s, k);
    } else {
        assert(0 <= w < s.len() && s[w] is None && forall|j: int| 0 <= j < w ==> s[j] is Some);
    }
}

/// `dup` gives a second, different descriptor for the same file.
pub proof fn lemma_dup_distinct(s: Seq<Option<FileRef>>, max_fd: usize, fd: int)
    requires
        s.len() <= usize::MAX,
        slot_file(s, fd) is Some,
        allocate_spec(s, max_fd, slot_file(s, fd)->Some_0).1 is Some,
    ensures
        ({
            let f = slot_file(s, fd)->Some_0;
            let (s2, r) = allocate_spec(s, max_fd, f);
            &&& r->Some_0 != fd
            &&& slot_file(s2, r->Some_0 as int) == Some(f)
            &&& slot_file(s2, fd) == Some(f)
        }),
{
    lemma_get_after_allocate(s, max_fd, slot_file(s, fd)->Some_0);
}

/// A closed descriptor refers to nothing, and closing it leaves every other
/// descriptor as it was.
pub proof fn lemma_get_after_close(s: Seq<Option<FileRef>>, fd: int)
    requires
        0 <= fd < s.len(),
    ensures
        slot_file(s.update(fd, None), fd) is None,
        forall|j: int| j != fd ==> slot_file(s.update(fd, None), j) == #[trigger] slot_file(s, j),
{
}

/// Seeking nowhere: a seek by zero from the current position returns the
/// current offset, and a seek by zero from the end returns the size.
pub proof fn lemma_seek_by_zero(offset: u64, size: u64)
    ensures
        seek_target(offset, size, SeekFrom::Current(0)) == Ok::<u64, VfsError>(offset),
        seek_target(offset, size, SeekFrom::End(0)) == Ok::<u64, VfsError>(size),
{
}

/// Reading back through an open file what it wrote: after a successful
/// write of `data` to a tmpfs file, a seek back to where the write landed and
/// a read of `data.len()` bytes return exactly `data`.
pub proof fn lemma_file_read_after_write(
    f0: File<TmpfsInode>,
    f1: File<TmpfsInode>,
    data: Seq<u8>,
    n: usize,
    buf: Seq<u8>,
    f2: File<TmpfsInode>,
    out: Seq<u8>,
    r: Result<usize, VfsError>,
)
    requires
        f0.write_outcome(data, f1, Ok(n)),
        f1.flags.read,
        buf.len() == data.len(),
        (File { offset: f0.write_position(), ..f1 }).read_outcome(buf, f2, out, r),
    ensures
        r == Ok::<usize, VfsError>(n),
        n == data.len(),
        out == data,
{
    lemma_read_after_write(f0.inode, f1.inode, f0.write_position(), data, n);
    assert(out =~= data);
}

} // verus!
