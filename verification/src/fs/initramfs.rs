//! Initramfs: the read-only file system built into the kernel and mounted
//! at boot.
//!
//! A directory owns its children; a child is addressed by its index in the
//! directory, which is what `lookup` returns. Nothing can be created,
//! removed or written once the tree is built.
use vstd::prelude::*;
use vstd::string::StringSliceAdditionalSpecFns;
use crate::fs::inode::{
    blocks_for_size, max_data_len, mode_kind_bits, read_bytes, resize_bytes, sectors_for,
    write_bytes, DirEntry, FileModeKind, FilePermissions, FileType, Inode, InodeCounter, Stat,
    VfsError, BLOCK_SIZE,
};

verus! {

const DEFAULT_ROOT_UID: u32 = 0;

const DEFAULT_ROOT_GID: u32 = 0;

const DIR_NLINK: u32 = 2;

const FILE_NLINK: u32 = 1;

/// An inode of the initramfs file system.
pub struct InitramfsInode {
    inode_type: FileType,
    permissions: FilePermissions,
    stat: Stat,
    name: String,
    parent: Option<u64>,
    children: Vec<InitramfsInode>,
    data: Vec<u8>,
}

/// The attributes of a fresh inode of type `t` numbered `ino`.
pub open spec fn fresh_stat(ino: u64, t: FileType) -> Stat {
    Stat {
        st_ino: ino,
        st_mode: if t == FileType::Directory {
            mode_kind_bits(FileModeKind::Directory)
        } else {
            mode_kind_bits(FileModeKind::RegularFile)
        },
        st_nlink: if t == FileType::Directory { 2 } else { 1 },
        st_uid: 0,
        st_gid: 0,
        st_size: 0,
        st_blksize: BLOCK_SIZE,
        st_blocks: 0,
    }
}

/// The permissions of a fresh inode of type `t`.
pub open spec fn fresh_permissions(t: FileType) -> FilePermissions {
    if t == FileType::Directory {
        FilePermissions { mode: 0o755 }
    } else {
        FilePermissions { mode: 0o644 }
    }
}

/// A fresh inode of type `t` numbered `ino`: a directory has mode
/// `0o040000`, two links and permissions `rwxr-xr-x`; anything else has mode
/// `0o100000`, one link and permissions `rw-r--r--`; it is owned by root,
/// empty, and reports 4096-byte blocks.
pub proof fn lemma_fresh_attributes(ino: u64, t: FileType)
    ensures
        fresh_stat(ino, t).st_ino == ino,
        fresh_stat(ino, t).st_mode == if t == FileType::Directory { 0o040000u32 } else { 0o100000u32 },
        fresh_stat(ino, t).st_nlink == if t == FileType::Directory { 2u32 } else { 1u32 },
        fresh_stat(ino, t).st_uid == 0,
        fresh_stat(ino, t).st_gid == 0,
        fresh_stat(ino, t).st_size == 0,
        fresh_stat(ino, t).st_blksize == 4096,
        fresh_stat(ino, t).st_blocks == 0,
        fresh_permissions(t).mode == if t == FileType::Directory { 0o755u16 } else { 0o644u16 },
{
}

impl InitramfsInode {
    /// The name of the inode.
    pub closed spec fn name_view(&self) -> Seq<char> {
        self.name@
    }

    /// The permissions of the inode.
    pub closed spec fn perms_view(&self) -> FilePermissions {
        self.permissions
    }

    /// The inode number of the parent, if one was set.
    pub closed spec fn parent_view(&self) -> Option<u64> {
        self.parent
    }

    /// The children of a directory, in the order they were added.
    pub closed spec fn children_view(&self) -> Seq<InitramfsInode> {
        self.children@
    }

    /// The data of a file (or the target of a symbolic link).
    pub closed spec fn data_view(&self) -> Seq<u8> {
        self.data@
    }

    /// No two children share a name.
    pub open spec fn wf(&self) -> bool {
        forall|i: int, j: int|
            0 <= i < j < self.children_view().len() ==> (#[trigger] self.children_view()[i]).name_view()
                != (#[trigger] self.children_view()[j]).name_view()
    }

    /// Whether some child is named `name`.
    pub open spec fn has_child(&self, name: Seq<char>) -> bool {
        exists|i: int| 0 <= i < self.children_view().len() && (#[trigger] self.children_view()[i]).name_view() == name
    }

    /// `other` differs from `self` at most in its children.
    pub open spec fn same_but_children(&self, other: &InitramfsInode) -> bool {
        &&& other.kind() == self.kind()
        &&& other.attrs() == self.attrs()
        &&& other.name_view() == self.name_view()
        &&& other.perms_view() == self.perms_view()
        &&& other.parent_view() == self.parent_view()
        &&& other.data_view() == self.data_view()
    }

    /// `other` differs from `self` at most in its data and attributes.
    pub open spec fn same_but_contents(&self, other: &InitramfsInode) -> bool {
        &&& other.kind() == self.kind()
        &&& other.name_view() == self.name_view()
        &&& other.perms_view() == self.perms_view()
        &&& other.parent_view() == self.parent_view()
        &&& other.children_view() == self.children_view()
    }

    /// A fresh inode as `new` makes it.
    pub open spec fn is_fresh(&self, name: Seq<char>, t: FileType, ino: u64) -> bool {
        &&& self.kind() == t
        &&& self.attrs() == fresh_stat(ino, t)
        &&& self.name_view() == name
        &&& self.perms_view() == fresh_permissions(t)
        &&& self.parent_view() is None
        &&& self.children_view().len() == 0
        &&& self.data_view().len() == 0
    }

    /// Creates an inode named `name` of type `inode_type`, numbered by `counter`.
    pub fn new(name: &str, inode_type: FileType, counter: &mut InodeCounter) -> (r: Self)
        requires
            old(counter).next_number() < u64::MAX,
        ensures
            r.is_fresh(name@, inode_type, old(counter).next_number()),
            r.attrs().st_ino >= 1,
            forall|i: u64| #[trigger] old(counter).issued().contains(i) ==> i < r.attrs().st_ino,
            final(counter).issued() == old(counter).issued().insert(r.attrs().st_ino),
            r.wf(),
            final(counter).next_number() == old(counter).next_number() + 1,
    {
        let ino = counter.next_ino();
        let mode = match inode_type {
            FileType::Directory => FileModeKind::Directory.bits(),
            _ => FileModeKind::RegularFile.bits(),
        };
        let nlink = if inode_type == FileType::Directory {
            DIR_NLINK
        } else {
            FILE_NLINK
        };
        InitramfsInode {
            inode_type,
            permissions: if inode_type == FileType::Directory {
                FilePermissions::default_directory()
            } else {
                FilePermissions::default_file()
            },
            stat: Stat {
                st_ino: ino,
                st_mode: mode,
                st_nlink: nlink,
                st_uid: DEFAULT_ROOT_UID,
                st_gid: DEFAULT_ROOT_GID,
                st_size: 0,
                st_blksize: BLOCK_SIZE,
                st_blocks: 0,
            },
            name: name.to_owned(),
            parent: None,
            children: Vec::new(),
            data: Vec::new(),
        }
    }

    /// Replaces the data and updates the size and the block count.
    pub fn set_data(&mut self, data: Vec<u8>)
        ensures
            final(self).data_view() == data@,
            final(self).attrs() == (Stat {
                st_size: data@.len() as u64,
                st_blocks: sectors_for(data@.len() as u64) as u64,
                ..old(self).attrs()
            }),
            old(self).same_but_contents(&*final(self)),
            old(self).wf() ==> final(self).wf(),
    {
        self.data = data;
        self.stat.st_size = self.data.len() as u64;
        self.stat.st_blocks = blocks_for_size(self.stat.st_size);
        assert(self.children_view() == old(self).children_view());
    }

    /// Returns the permissions.
    pub fn permissions(&self) -> (r: FilePermissions)
        ensures
            r == self.perms_view(),
    {
        self.permissions
    }

    /// Replaces the permissions.
    pub fn set_permissions(&mut self, perms: FilePermissions)
        ensures
            final(self).perms_view() == perms,
            final(self).kind() == old(self).kind(),
            final(self).attrs() == old(self).attrs(),
            final(self).name_view() == old(self).name_view(),
            final(self).parent_view() == old(self).parent_view(),
            final(self).children_view() == old(self).children_view(),
            final(self).data_view() == old(self).data_view(),
    {
        self.permissions = perms;
    }

    /// Sets the owning user and group.
    pub fn set_owner(&mut self, uid: u32, gid: u32)
        ensures
            final(self).attrs() == (Stat { st_uid: uid, st_gid: gid, ..old(self).attrs() }),
            old(self).same_but_contents(&*final(self)),
            final(self).data_view() == old(self).data_view(),
    {
        self.stat.st_uid = uid;
        self.stat.st_gid = gid;
    }

    /// Overrides the size recorded in the attributes (the data is untouched).
    pub fn set_size(&mut self, size: u64)
        ensures
            final(self).attrs() == (Stat { st_size: size, ..old(self).attrs() }),
            old(self).same_but_contents(&*final(self)),
            final(self).data_view() == old(self).data_view(),
    {
        self.stat.st_size = size;
    }

    /// Returns the name.
    pub fn name(&self) -> (r: &str)
        ensures
            r@ == self.name_view(),
    {
        self.name.as_str()
    }

    /// Returns the inode number of the parent, if one was set.
    pub fn parent(&self) -> (r: Option<u64>)
        ensures
            r == self.parent_view(),
    {
        self.parent
    }

    /// Records the inode number of the parent.
    pub fn set_parent(&mut self, parent: Option<u64>)
        ensures
            final(self).parent_view() == parent,
            final(self).kind() == old(self).kind(),
            final(self).attrs() == old(self).attrs(),
            final(self).name_view() == old(self).name_view(),
            final(self).perms_view() == old(self).perms_view(),
            final(self).children_view() == old(self).children_view(),
            final(self).data_view() == old(self).data_view(),
    {
        self.parent = parent;
    }

    /// Returns the number of children.
    pub fn num_children(&self) -> (r: usize)
        ensures
            r == self.children_view().len(),
    {
        self.children.len()
    }

    /// Returns the child at `idx`.
    pub fn child(&self, idx: usize) -> (r: &InitramfsInode)
        requires
            idx < self.children_view().len(),
        ensures
            *r == self.children_view()[idx as int],
    {
        &self.children[idx]
    }

    /// Finds the first child named `name`; files have no children.
    pub fn lookup(&self, name: &str) -> (r: Option<usize>)
        ensures
            self.kind() != FileType::Directory ==> r is None,
            self.kind() == FileType::Directory ==> match r {
                Some(i) => {
                    &&& i < self.children_view().len()
                    &&& self.children_view()[i as int].name_view() == name@
                    &&& forall|j: int| 0 <= j < i ==> (#[trigger] self.children_view()[j]).name_view() != name@
                },
                None => !self.has_child(name@),
            },
    {
        if self.inode_type != FileType::Directory {
            return None;
        }
        self.position_of(name)
    }

    /// The index of the first child named `name`.
    fn position_of(&self, name: &str) -> (r: Option<usize>)
        ensures
            match r {
                Some(i) => {
                    &&& i < self.children_view().len()
                    &&& self.children_view()[i as int].name_view() == name@
                    &&& forall|j: int| 0 <= j < i ==> (#[trigger] self.children_view()[j]).name_view() != name@
                },
                None => !self.has_child(name@),
            },
    {
        let key: String = name.to_owned();
        let mut i: usize = 0;
        while i < self.children.len()
            invariant
                i <= self.children@.len(),
                key@ == name@,
                forall|j: int| 0 <= j < i ==> (#[trigger] self.children@[j]).name@ != name@,
            decreases self.children@.len() - i,
        {
            if self.children[i].name == key {
                return Some(i);
            }
            i = i + 1;
        }
        proof {
            assert forall|j: int| 0 <= j < self.children_view().len() implies (#[trigger] self.children_view()[j]).name_view() != name@ by {
                assert(self.children@[j].name@ != name@);
            }
        }
        None
    }

    /// Creating directories is not supported: always `None`.
    pub fn mkdir(&mut self, name: &str, perms: FilePermissions) -> (r: Option<usize>)
        ensures
            r is None,
            *final(self) == *old(self),
    {
        None
    }

    /// Creating files is not supported: always `None`.
    pub fn create(&mut self, name: &str, perms: FilePermissions) -> (r: Option<usize>)
        ensures
            r is None,
            *final(self) == *old(self),
    {
        None
    }
}

impl InitramfsInode {
    /// The index of the child named `name` (meaningful when there is one).
    pub open spec fn child_index(&self, name: Seq<char>) -> int {
        choose|i: int| 0 <= i < self.children_view().len() && (#[trigger] self.children_view()[i]).name_view() == name
    }

    /// Removing entries is not supported.
    pub fn unlink(&mut self, name: &str) -> (r: Result<(), VfsError>)
        ensures
            r == Err::<(), VfsError>(VfsError::OperationNotSupported),
            *final(self) == *old(self),
    {
        Err(VfsError::OperationNotSupported)
    }

    /// Removing directories is not supported.
    pub fn rmdir(&mut self, name: &str) -> (r: Result<(), VfsError>)
        ensures
            r == Err::<(), VfsError>(VfsError::OperationNotSupported),
            *final(self) == *old(self),
    {
        Err(VfsError::OperationNotSupported)
    }

    /// In a well-formed directory a name denotes at most one child: the child
    /// named `name` at `i` is the one that `child_index` picks, so `lookup`
    /// finds exactly it.
    pub proof fn lemma_unique_index(&self, i: int, name: Seq<char>)
        requires
            self.wf(),
            0 <= i < self.children_view().len(),
            self.children_view()[i].name_view() == name,
        ensures
            self.has_child(name),
            self.child_index(name) == i,
    {
        let k = self.child_index(name);
        if k != i {
            if k < i {
                assert(self.children_view()[k].name_view() != self.children_view()[i].name_view());
            } else {
                assert(self.children_view()[i].name_view() != self.children_view()[k].name_view());
            }
        }
    }

    /// Returns the entry at position `offset` of a directory.
    pub fn readdir(&self, offset: u64) -> (r: Option<DirEntry>)
        ensures
            (self.kind() != FileType::Directory || offset >= self.children_view().len()) ==> r is None,
            (self.kind() == FileType::Directory && offset < self.children_view().len()) ==> match r {
                Some(e) => {
                    let c = self.children_view()[offset as int];
                    &&& e.inode == c.attrs().st_ino
                    &&& e.offset == offset + 1
                    &&& e.name@ == c.name_view()
                    &&& e.file_type == c.kind()
                },
                None => false,
            },
    {
        if self.inode_type != FileType::Directory {
            return None;
        }
        if offset >= self.children.len() as u64 {
            return None;
        }
        let idx = offset as usize;
        let child = &self.children[idx];
        Some(DirEntry {
            inode: child.stat.st_ino,
            offset: offset + 1,
            name: child.name.clone(),
            file_type: child.inode_type,
        })
    }

    /// Whether the inode has no children.
    pub fn is_empty(&self) -> (r: bool)
        ensures
            r == (self.children_view().len() == 0),
    {
        self.children.len() == 0
    }

}

/// A regular file named `name` holding the UTF-8 encoding of `text`.
fn file_with_text(name: &str, text: &str, counter: &mut InodeCounter) -> (r: InitramfsInode)
    requires
        old(counter).next_number() < u64::MAX,
    ensures
        r.wf(),
        r.is_file_with(name@, old(counter).next_number(), text.spec_bytes()),
        final(counter).next_number() == old(counter).next_number() + 1,
{
    let mut f = InitramfsInode::new(name, FileType::RegularFile, counter);
    f.set_data(vstd::slice::slice_to_vec(text.as_bytes()));
    f
}

/// Builds the initramfs tree: `/` holding `init`, `hello.txt`, `bin` (with
/// `sh`), `etc` (with `hostname`) and the empty `dev`, where devices are
/// attached, in that order.
pub fn create_initramfs_root(counter: &mut InodeCounter) -> (r: InitramfsInode)
    requires
        old(counter).next_number() + 8 <= u64::MAX,
    ensures
        r.wf(),
        r.is_fresh_children("/"@, FileType::Directory, old(counter).next_number()),
        r.children_view().len() == 5,
        r.children_view()[0].is_file_with("init"@, (old(counter).next_number() + 5) as u64,
            "#!/bin/sh\necho 'Welcome to Rust Kernel!'\n".spec_bytes()),
        r.children_view()[1].is_file_with("hello.txt"@, (old(counter).next_number() + 6) as u64,
            "Hello from Rust Kernel!\n".spec_bytes()),
        r.children_view()[2].is_fresh_children("bin"@, FileType::Directory, (old(counter).next_number() + 1) as u64),
        r.children_view()[2].children_view().len() == 1,
        r.children_view()[2].children_view()[0].is_file_with("sh"@, (old(counter).next_number() + 2) as u64,
            "#!/bin/sh\necho 'Simple shell'\n".spec_bytes()),
        r.children_view()[3].is_fresh_children("etc"@, FileType::Directory, (old(counter).next_number() + 3) as u64),
        r.children_view()[3].children_view().len() == 1,
        r.children_view()[3].children_view()[0].is_file_with("hostname"@, (old(counter).next_number() + 4) as u64,
            "rustkernel\n".spec_bytes()),
        r.children_view()[4].is_fresh("dev"@, FileType::Directory, (old(counter).next_number() + 7) as u64),
        final(counter).next_number() == old(counter).next_number() + 8,
{
    proof {
        reveal_strlit("#!/bin/sh\necho 'Simple shell'\n");
        reveal_strlit("rustkernel\n");
        reveal_strlit("#!/bin/sh\necho 'Welcome to Rust Kernel!'\n");
        reveal_strlit("Hello from Rust Kernel!\n");
    }
    let mut root = InitramfsInode::new("/", FileType::Directory, counter);
    let mut bin_dir = InitramfsInode::new("bin", FileType::Directory, counter);
    let bin_sh = file_with_text("sh", "#!/bin/sh\necho 'Simple shell'\n", counter);
    bin_dir.children.push(bin_sh);
    let mut etc_dir = InitramfsInode::new("etc", FileType::Directory, counter);
    let hostname = file_with_text("hostname", "rustkernel\n", counter);
    etc_dir.children.push(hostname);
    let init = file_with_text("init", "#!/bin/sh\necho 'Welcome to Rust Kernel!'\n", counter);
    let hello = file_with_text("hello.txt", "Hello from Rust Kernel!\n", counter);
    let dev_dir = InitramfsInode::new("dev", FileType::Directory, counter);
    proof {
        reveal_strlit("init");
        reveal_strlit("hello.txt");
        reveal_strlit("bin");
        reveal_strlit("etc");
        reveal_strlit("dev");
    }
    root.children.push(init);
    root.children.push(hello);
    root.children.push(bin_dir);
    root.children.push(etc_dir);
    root.children.push(dev_dir);
    proof {
        let c = root.children_view();
        assert forall|i: int, j: int| 0 <= i < j < c.len() implies (#[trigger] c[i]).name_view() != (#[trigger] c[j]).name_view() by {
            assert(c[i].name_view().len() != c[j].name_view().len() || c[i].name_view()[0] != c[j].name_view()[0]);
        }
    }
    root
}

impl InitramfsInode {
    /// A fresh regular file numbered `ino` whose data was then set to `data`.
    pub open spec fn is_file_with(&self, name: Seq<char>, ino: u64, data: Seq<u8>) -> bool {
        &&& self.kind() == FileType::RegularFile
        &&& self.attrs() == (Stat {
            st_size: data.len() as u64,
            st_blocks: sectors_for(data.len() as u64) as u64,
            ..fresh_stat(ino, FileType::RegularFile)
        })
        &&& self.name_view() == name
        &&& self.perms_view() == fresh_permissions(FileType::RegularFile)
        &&& self.parent_view() is None
        &&& self.children_view().len() == 0
        &&& self.data_view() == data
    }

    /// A fresh inode as `new` makes it, except that it may have children.
    pub open spec fn is_fresh_children(&self, name: Seq<char>, t: FileType, ino: u64) -> bool {
        &&& self.kind() == t
        &&& self.attrs() == fresh_stat(ino, t)
        &&& self.name_view() == name
        &&& self.perms_view() == fresh_permissions(t)
        &&& self.parent_view() is None
        &&& self.data_view().len() == 0
    }
}

impl Inode for InitramfsInode {
    closed spec fn kind(&self) -> FileType {
        self.inode_type
    }

    closed spec fn attrs(&self) -> Stat {
        self.stat
    }

    open spec fn read_spec(&self, offset: u64, len: nat) -> Result<Seq<u8>, VfsError> {
        if self.kind() == FileType::Directory {
            Err(VfsError::IsDirectory)
        } else {
            Ok(read_bytes(self.data_view(), offset, len))
        }
    }

    open spec fn can_write(&self, offset: u64, len: nat) -> bool {
        true
    }

    open spec fn write_spec(&self, offset: u64, data: Seq<u8>, after: Self, r: Result<usize, VfsError>) -> bool {
        r == Err::<usize, VfsError>(VfsError::OperationNotSupported) && after == *self
    }

    open spec fn can_truncate(&self, size: u64) -> bool {
        true
    }

    open spec fn truncate_spec(&self, size: u64, after: Self, r: Result<(), VfsError>) -> bool {
        r == Err::<(), VfsError>(VfsError::OperationNotSupported) && after == *self
    }

    fn inode_type(&self) -> (r: FileType) {
        self.inode_type
    }

    fn stat(&self) -> (r: Stat) {
        self.stat
    }

    fn read(&self, offset: u64, buf: &mut [u8]) -> (r: Result<usize, VfsError>) {
        if self.inode_type == FileType::Directory {
            return Err(VfsError::IsDirectory);
        }
        let len = self.data.len();
        if offset >= len as u64 {
            proof {
                assert(final(buf)@ =~= Seq::<u8>::empty() + old(buf)@.skip(0));
            }
            return Ok(0);
        }
        let start = offset as usize;
        let avail = len - start;
        let copy_len = if buf.len() < avail { buf.len() } else { avail };
        let mut i: usize = 0;
        while i < copy_len
            invariant
                start == offset,
                len == self.data@.len(),
                copy_len <= buf@.len(),
                start + copy_len <= self.data@.len(),
                buf@.len() == old(buf)@.len(),
                0 <= i <= copy_len,
                forall|j: int| 0 <= j < i ==> buf@[j] == self.data@[start + j],
                forall|j: int| copy_len <= j < buf@.len() ==> buf@[j] == old(buf)@[j],
            decreases copy_len - i,
        {
            buf[i] = self.data[start + i];
            i = i + 1;
        }
        proof {
            let bytes = read_bytes(self.data_view(), offset, old(buf)@.len());
            assert(bytes.len() == copy_len);
            assert(buf@ =~= bytes + old(buf)@.skip(copy_len as int));
        }
        Ok(copy_len)
    }

    fn write(&mut self, offset: u64, buf: &[u8]) -> (r: Result<usize, VfsError>) {
        Err(VfsError::OperationNotSupported)
    }

    fn truncate(&mut self, size: u64) -> (r: Result<(), VfsError>) {
        Err(VfsError::OperationNotSupported)
    }

    fn sync(&self) -> (r: Result<(), VfsError>) {
        Ok(())
    }
}


} // verus!
