//! Tmpfs: a writable file system kept entirely in memory.
//!
//! A directory owns its children; a child is addressed by its index in the
//! directory, which is what `lookup`, `mkdir` and `create` return.
use vstd::prelude::*;
use vstd::utf8::{decode_utf8, valid_utf8};
use vstd::string::StringSliceAdditionalSpecFns;
use crate::fs::inode::{
    blocks_for_size, max_data_len, mode_kind_bits, read_bytes, resize_bytes, sectors_for,
    write_bytes, DirEntry, FileModeKind, FilePermissions, FileType, Inode, InodeCounter, Stat,
    VfsError, BLOCK_SIZE,
};

verus! {

const DEFAULT_ROOT_UID: u32 = 0;

const DEFAULT_ROOT_GID: u32 = 0;

const DIR_NLINK: u32 = 2;

const FILE_NLINK: u32 = 1;

/// An inode of the tmpfs file system.
pub struct TmpfsInode {
    inode_type: FileType,
    permissions: FilePermissions,
    stat: Stat,
    name: String,
    parent: Option<u64>,
    children: Vec<TmpfsInode>,
    data: Vec<u8>,
}

/// The attributes of a fresh inode of type `t` numbered `ino`.
pub open spec fn fresh_stat(ino: u64, t: FileType) -> Stat {
    Stat {
        st_ino: ino,
        st_mode: if t == FileType::Directory {
            mode_kind_bits(FileModeKind::Directory)
        } else {
            mode_kind_bits(FileModeKind::RegularFile)
        },
        st_nlink: if t == FileType::Directory { 2 } else { 1 },
        st_uid: 0,
        st_gid: 0,
        st_size: 0,
        st_blksize: BLOCK_SIZE,
        st_blocks: 0,
    }
}

/// The permissions of a fresh inode of type `t`.
pub open spec fn fresh_permissions(t: FileType) -> FilePermissions {
    if t == FileType::Directory {
        FilePermissions { mode: 0o755 }
    } else {
        FilePermissions { mode: 0o644 }
    }
}

/// A fresh inode of type `t` numbered `ino`: a directory has mode
/// `0o040000`, two links and permissions `rwxr-xr-x`; anything else has mode
/// `0o100000`, one link and permissions `rw-r--r--`; it is owned by root,
/// empty, and reports 4096-byte blocks.
pub proof fn lemma_fresh_attributes(ino: u64, t: FileType)
    ensures
        fresh_stat(ino, t).st_ino == ino,
        fresh_stat(ino, t).st_mode == if t == FileType::Directory { 0o040000u32 } else { 0o100000u32 },
        fresh_stat(ino, t).st_nlink == if t == FileType::Directory { 2u32 } else { 1u32 },
        fresh_stat(ino, t).st_uid == 0,
        fresh_stat(ino, t).st_gid == 0,
        fresh_stat(ino, t).st_size == 0,
        fresh_stat(ino, t).st_blksize == 4096,
        fresh_stat(ino, t).st_blocks == 0,
        fresh_permissions(t).mode == if t == FileType::Directory { 0o755u16 } else { 0o644u16 },
{
}

impl TmpfsInode {
    /// The name of the inode.
    pub closed spec fn name_view(&self) -> Seq<char> {
        self.name@
    }

    /// The permissions of the inode.
    pub closed spec fn perms_view(&self) -> FilePermissions {
        self.permissions
    }

    /// The inode number of the parent, if one was set.
    pub closed spec fn parent_view(&self) -> Option<u64> {
        self.parent
    }

    /// The children of a directory, in the order they were added.
    pub closed spec fn children_view(&self) -> Seq<TmpfsInode> {
        self.children@
    }

    /// The data of a file (or the target of a symbolic link).
    pub closed spec fn data_view(&self) -> Seq<u8> {
        self.data@
    }

    /// No two children share a name.
    pub open spec fn wf(&self) -> bool {
        forall|i: int, j: int|
            0 <= i < j < self.children_view().len() ==> (#[trigger] self.children_view()[i]).name_view()
                != (#[trigger] self.children_view()[j]).name_view()
    }

    /// Whether some child is named `name`.
    pub open spec fn has_child(&self, name: Seq<char>) -> bool {
        exists|i: int| 0 <= i < self.children_view().len() && (#[trigger] self.children_view()[i]).name_view() == name
    }

    /// `other` differs from `self` at most in its children.
    pub open spec fn same_but_children(&self, other: &TmpfsInode) -> bool {
        &&& other.kind() == self.kind()
        &&& other.attrs() == self.attrs()
        &&& other.name_view() == self.name_view()
        &&& other.perms_view() == self.perms_view()
        &&& other.parent_view() == self.parent_view()
        &&& other.data_view() == self.data_view()
    }

    /// `other` differs from `self` at most in its data and attributes.
    pub open spec fn same_but_contents(&self, other: &TmpfsInode) -> bool {
        &&& other.kind() == self.kind()
        &&& other.name_view() == self.name_view()
        &&& other.perms_view() == self.perms_view()
        &&& other.parent_view() == self.parent_view()
        &&& other.children_view() == self.children_view()
    }

    /// A fresh inode as `new` makes it.
    pub open spec fn is_fresh(&self, name: Seq<char>, t: FileType, ino: u64) -> bool {
        &&& self.kind() == t
        &&& self.attrs() == fresh_stat(ino, t)
        &&& self.name_view() == name
        &&& self.perms_view() == fresh_permissions(t)
        &&& self.parent_view() is None
        &&& self.children_view().len() == 0
        &&& self.data_view().len() == 0
    }

    /// Creates an inode named `name` of type `inode_type`, numbered by `counter`.
    pub fn new(name: &str, inode_type: FileType, counter: &mut InodeCounter) -> (r: Self)
        requires
            old(counter).next_number() < u64::MAX,
        ensures
            r.is_fresh(name@, inode_type, old(counter).next_number()),
            r.attrs().st_ino >= 1,
            forall|i: u64| #[trigger] old(counter).issued().contains(i) ==> i < r.attrs().st_ino,
            final(counter).issued() == old(counter).issued().insert(r.attrs().st_ino),
            r.wf(),
            final(counter).next_number() == old(counter).next_number() + 1,
    {
        let ino = counter.next_ino();
        let mode = match inode_type {
            FileType::Directory => FileModeKind::Directory.bits(),
            _ => FileModeKind::RegularFile.bits(),
        };
        let nlink = if inode_type == FileType::Directory {
            DIR_NLINK
        } else {
            FILE_NLINK
        };
        TmpfsInode {
            inode_type,
            permissions: if inode_type == FileType::Directory {
                FilePermissions::default_directory()
            } else {
                FilePermissions::default_file()
            },
            stat: Stat {
                st_ino: ino,
                st_mode: mode,
                st_nlink: nlink,
                st_uid: DEFAULT_ROOT_UID,
                st_gid: DEFAULT_ROOT_GID,
                st_size: 0,
                st_blksize: BLOCK_SIZE,
                st_blocks: 0,
            },
            name: name.to_owned(),
            parent: None,
            children: Vec::new(),
            data: Vec::new(),
        }
    }

    /// Replaces the data and updates the size and the block count.
    pub fn set_data(&mut self, data: Vec<u8>)
        ensures
            final(self).data_view() == data@,
            final(self).attrs() == (Stat {
                st_size: data@.len() as u64,
                st_blocks: sectors_for(data@.len() as u64) as u64,
                ..old(self).attrs()
            }),
            old(self).same_but_contents(&*final(self)),
            old(self).wf() ==> final(self).wf(),
    {
        self.data = data;
        self.stat.st_size = self.data.len() as u64;
        self.stat.st_blocks = blocks_for_size(self.stat.st_size);
        assert(self.children_view() == old(self).children_view());
    }

    /// Returns the permissions.
    pub fn permissions(&self) -> (r: FilePermissions)
        ensures
            r == self.perms_view(),
    {
        self.permissions
    }

    /// Replaces the permissions.
    pub fn set_permissions(&mut self, perms: FilePermissions)
        ensures
            final(self).perms_view() == perms,
            final(self).kind() == old(self).kind(),
            final(self).attrs() == old(self).attrs(),
            final(self).name_view() == old(self).name_view(),
            final(self).parent_view() == old(self).parent_view(),
            final(self).children_view() == old(self).children_view(),
            final(self).data_view() == old(self).data_view(),
    {
        self.permissions = perms;
    }

    /// Sets the owning user and group.
    pub fn set_owner(&mut self, uid: u32, gid: u32)
        ensures
            final(self).attrs() == (Stat { st_uid: uid, st_gid: gid, ..old(self).attrs() }),
            old(self).same_but_contents(&*final(self)),
            final(self).data_view() == old(self).data_view(),
    {
        self.stat.st_uid = uid;
        self.stat.st_gid = gid;
    }

    /// Overrides the size recorded in the attributes (the data is untouched).
    pub fn set_size(&mut self, size: u64)
        ensures
            final(self).attrs() == (Stat { st_size: size, ..old(self).attrs() }),
            old(self).same_but_contents(&*final(self)),
            final(self).data_view() == old(self).data_view(),
    {
        self.stat.st_size = size;
    }

    /// Returns the name.
    pub fn name(&self) -> (r: &str)
        ensures
            r@ == self.name_view(),
    {
        self.name.as_str()
    }

    /// Returns the inode number of the parent, if one was set.
    pub fn parent(&self) -> (r: Option<u64>)
        ensures
            r == self.parent_view(),
    {
        self.parent
    }

    /// Records the inode number of the parent.
    pub fn set_parent(&mut self, parent: Option<u64>)
        ensures
            final(self).parent_view() == parent,
            final(self).kind() == old(self).kind(),
            final(self).attrs() == old(self).attrs(),
            final(self).name_view() == old(self).name_view(),
            final(self).perms_view() == old(self).perms_view(),
            final(self).children_view() == old(self).children_view(),
            final(self).data_view() == old(self).data_view(),
    {
        self.parent = parent;
    }

    /// Returns the number of children.
    pub fn num_children(&self) -> (r: usize)
        ensures
            r == self.children_view().len(),
    {
        self.children.len()
    }

    /// Returns the child at `idx`.
    pub fn child(&self, idx: usize) -> (r: &TmpfsInode)
        requires
            idx < self.children_view().len(),
        ensures
            *r == self.children_view()[idx as int],
    {
        &self.children[idx]
    }

    /// Returns the child at `idx` for modification.
    pub fn child_mut(&mut self, idx: usize) -> (r: &mut TmpfsInode)
        requires
            idx < old(self).children_view().len(),
        ensures
            *r == old(self).children_view()[idx as int],
            final(self).children_view() == old(self).children_view().update(idx as int, *final(r)),
            old(self).same_but_children(&*final(self)),
    {
        &mut self.children[idx]
    }

    /// Finds the first child named `name`; files have no children.
    pub fn lookup(&self, name: &str) -> (r: Option<usize>)
        ensures
            self.kind() != FileType::Directory ==> r is None,
            self.kind() == FileType::Directory ==> match r {
                Some(i) => {
                    &&& i < self.children_view().len()
                    &&& self.children_view()[i as int].name_view() == name@
                    &&& forall|j: int| 0 <= j < i ==> (#[trigger] self.children_view()[j]).name_view() != name@
                },
                None => !self.has_child(name@),
            },
    {
        if self.inode_type != FileType::Directory {
            return None;
        }
        self.position_of(name)
    }

    /// The index of the first child named `name`.
    fn position_of(&self, name: &str) -> (r: Option<usize>)
        ensures
            match r {
                Some(i) => {
                    &&& i < self.children_view().len()
                    &&& self.children_view()[i as int].name_view() == name@
                    &&& forall|j: int| 0 <= j < i ==> (#[trigger] self.children_view()[j]).name_view() != name@
                },
                None => !self.has_child(name@),
            },
    {
        let key: String = name.to_owned();
        let mut i: usize = 0;
        while i < self.children.len()
            invariant
                i <= self.children@.len(),
                key@ == name@,
                forall|j: int| 0 <= j < i ==> (#[trigger] self.children@[j]).name@ != name@,
            decreases self.children@.len() - i,
        {
            if self.children[i].name == key {
                return Some(i);
            }
            i = i + 1;
        }
        proof {
            assert forall|j: int| 0 <= j < self.children_view().len() implies (#[trigger] self.children_view()[j]).name_view() != name@ by {
                assert(self.children@[j].name@ != name@);
            }
        }
        None
    }

    /// Appends a child; the directory must not already hold its name.
    fn add_child(&mut self, child: TmpfsInode)
        requires
            old(self).wf(),
            !old(self).has_child(child.name_view()),
        ensures
            final(self).wf(),
            final(self).children_view() == old(self).children_view().push(child),
            old(self).same_but_children(&*final(self)),
    {
        self.children.push(child);
        proof {
            let c = self.children_view();
            assert forall|i: int, j: int| 0 <= i < j < c.len() implies (#[trigger] c[i]).name_view() != (#[trigger] c[j]).name_view() by {
                if j == c.len() - 1 {
                    assert(old(self).children_view()[i] == c[i]);
                }
                else {
                    assert(old(self).children_view()[i] == c[i]);
                    assert(old(self).children_view()[j] == c[j]);
                }
            }
        }
    }

    /// Creates a child directory `name` with `perms`; returns its index, or
    /// `None` when `self` is not a directory or already holds `name`.
    pub fn mkdir(&mut self, name: &str, perms: FilePermissions, counter: &mut InodeCounter) -> (r: Option<usize>)
        requires
            old(self).wf(),
            old(counter).next_number() < u64::MAX,
        ensures
            final(self).wf(),
            old(self).same_but_children(&*final(self)),
            r is Some <==> (old(self).kind() == FileType::Directory && !old(self).has_child(name@)),
            match r {
                Some(i) => {
                    &&& i == old(self).children_view().len()
                    &&& final(self).children_view().len() == i + 1
                    &&& final(self).children_view().subrange(0, i as int) == old(self).children_view()
                    &&& final(self).children_view()[i as int].is_fresh_with(name@, FileType::Directory, old(counter).next_number(), perms)
                    &&& final(counter).next_number() == old(counter).next_number() + 1
                },
                None => *final(self) == *old(self) && final(counter).next_number() == old(counter).next_number(),
            },
    {
        if self.inode_type != FileType::Directory {
            return None;
        }
        if self.position_of(name).is_some() {
            return None;
        }
        let mut child_inode = TmpfsInode::new(name, FileType::Directory, counter);
        child_inode.set_permissions(perms);
        let idx = self.children.len();
        self.add_child(child_inode);
        proof {
            assert(self.children_view().subrange(0, idx as int) =~= old(self).children_view());
        }
        Some(idx)
    }

    /// A fresh inode whose permissions were then set to `perms`.
    pub open spec fn is_fresh_with(&self, name: Seq<char>, t: FileType, ino: u64, perms: FilePermissions) -> bool {
        &&& self.kind() == t
        &&& self.attrs() == fresh_stat(ino, t)
        &&& self.name_view() == name
        &&& self.perms_view() == perms
        &&& self.parent_view() is None
        &&& self.children_view().len() == 0
        &&& self.data_view().len() == 0
        &&& self.wf()
    }

    /// Creates an empty regular file `name` with `perms`; returns its index,
    /// or `None` when `self` is not a directory or already holds `name`.
    pub fn create(&mut self, name: &str, perms: FilePermissions, counter: &mut InodeCounter) -> (r: Option<usize>)
        requires
            old(self).wf(),
            old(counter).next_number() < u64::MAX,
        ensures
            final(self).wf(),
            old(self).same_but_children(&*final(self)),
            r is Some <==> (old(self).kind() == FileType::Directory && !old(self).has_child(name@)),
            match r {
                Some(i) => {
                    &&& i == old(self).children_view().len()
                    &&& final(self).children_view().len() == i + 1
                    &&& final(self).children_view().subrange(0, i as int) == old(self).children_view()
                    &&& final(self).children_view()[i as int].is_fresh_with(name@, FileType::RegularFile, old(counter).next_number(), perms)
                    &&& final(counter).next_number() == old(counter).next_number() + 1
                },
                None => *final(self) == *old(self) && final(counter).next_number() == old(counter).next_number(),
            },
    {
        if self.inode_type != FileType::Directory {
            return None;
        }
        if self.position_of(name).is_some() {
            return None;
        }
        let mut file_inode = TmpfsInode::new(name, FileType::RegularFile, counter);
        file_inode.set_permissions(perms);
        let idx = self.children.len();
        self.add_child(file_inode);
        proof {
            assert(self.children_view().subrange(0, idx as int) =~= old(self).children_view());
        }
        Some(idx)
    }
}

impl TmpfsInode {
    /// The index of the child named `name` (meaningful when there is one).
    pub open spec fn child_index(&self, name: Seq<char>) -> int {
        choose|i: int| 0 <= i < self.children_view().len() && (#[trigger] self.children_view()[i]).name_view() == name
    }

    /// Removes the entry `name`, which must not be a directory.
    pub fn unlink(&mut self, name: &str) -> (r: Result<(), VfsError>)
        requires
            old(self).wf(),
        ensures
            final(self).wf(),
            old(self).same_but_children(&*final(self)),
            old(self).kind() != FileType::Directory ==> r == Err::<(), VfsError>(VfsError::NotADirectory),
            old(self).kind() == FileType::Directory && !old(self).has_child(name@) ==> r == Err::<(), VfsError>(VfsError::NotFound),
            old(self).kind() == FileType::Directory && old(self).has_child(name@) ==> {
                let i = old(self).child_index(name@);
                if old(self).children_view()[i].kind() == FileType::Directory {
                    r == Err::<(), VfsError>(VfsError::IsDirectory)
                } else {
                    r == Ok::<(), VfsError>(()) && final(self).children_view() == old(self).children_view().remove(i)
                }
            },
            r is Err ==> *final(self) == *old(self),
    {
        if self.inode_type != FileType::Directory {
            return Err(VfsError::NotADirectory);
        }
        let pos = match self.position_of(name) {
            Some(p) => p,
            None => return Err(VfsError::NotFound),
        };
        proof {
            self.lemma_unique_index(pos as int, name@);
        }
        if self.children[pos].inode_type() == FileType::Directory {
            return Err(VfsError::IsDirectory);
        }
        self.remove_child_at(pos);
        Ok(())
    }

    /// Removes the empty directory `name`.
    pub fn rmdir(&mut self, name: &str) -> (r: Result<(), VfsError>)
        requires
            old(self).wf(),
        ensures
            final(self).wf(),
            old(self).same_but_children(&*final(self)),
            old(self).kind() != FileType::Directory ==> r == Err::<(), VfsError>(VfsError::NotADirectory),
            old(self).kind() == FileType::Directory && !old(self).has_child(name@) ==> r == Err::<(), VfsError>(VfsError::NotFound),
            old(self).kind() == FileType::Directory && old(self).has_child(name@) ==> {
                let i = old(self).child_index(name@);
                let c = old(self).children_view()[i];
                if c.kind() != FileType::Directory {
                    r == Err::<(), VfsError>(VfsError::NotADirectory)
                } else if c.children_view().len() != 0 {
                    r == Err::<(), VfsError>(VfsError::NotEmpty)
                } else {
                    r == Ok::<(), VfsError>(()) && final(self).children_view() == old(self).children_view().remove(i)
                }
            },
            r is Err ==> *final(self) == *old(self),
    {
        if self.inode_type != FileType::Directory {
            return Err(VfsError::NotADirectory);
        }
        let pos = match self.position_of(name) {
            Some(p) => p,
            None => return Err(VfsError::NotFound),
        };
        proof {
            self.lemma_unique_index(pos as int, name@);
        }
        let child = &self.children[pos];
        if child.inode_type() != FileType::Directory {
            return Err(VfsError::NotADirectory);
        }
        if !child.is_empty() {
            return Err(VfsError::NotEmpty);
        }
        self.remove_child_at(pos);
        Ok(())
    }

    /// In a well-formed directory a name denotes at most one child: the child
    /// named `name` at `i` is the one that `child_index` picks, so `lookup`
    /// finds exactly it.
    pub proof fn lemma_unique_index(&self, i: int, name: Seq<char>)
        requires
            self.wf(),
            0 <= i < self.children_view().len(),
            self.children_view()[i].name_view() == name,
        ensures
            self.has_child(name),
            self.child_index(name) == i,
    {
        let k = self.child_index(name);
        if k != i {
            if k < i {
                assert(self.children_view()[k].name_view() != self.children_view()[i].name_view());
            } else {
                assert(self.children_view()[i].name_view() != self.children_view()[k].name_view());
            }
        }
    }

    /// Removes the child at `pos`.
    fn remove_child_at(&mut self, pos: usize)
        requires
            old(self).wf(),
            pos < old(self).children_view().len(),
        ensures
            final(self).wf(),
            final(self).children_view() == old(self).children_view().remove(pos as int),
            old(self).same_but_children(&*final(self)),
    {
        let _removed = self.children.remove(pos);
        proof {
            let o = old(self).children_view();
            let c = self.children_view();
            assert forall|i: int, j: int| 0 <= i < j < c.len() implies (#[trigger] c[i]).name_view() != (#[trigger] c[j]).name_view() by {
                let oi = if i < pos { i } else { i + 1 };
                let oj = if j < pos { j } else { j + 1 };
                assert(c[i] == o[oi]);
                assert(c[j] == o[oj]);
            }
        }
    }

    /// Returns the entry at position `offset` of a directory.
    pub fn readdir(&self, offset: u64) -> (r: Option<DirEntry>)
        ensures
            (self.kind() != FileType::Directory || offset >= self.children_view().len()) ==> r is None,
            (self.kind() == FileType::Directory && offset < self.children_view().len()) ==> match r {
                Some(e) => {
                    let c = self.children_view()[offset as int];
                    &&& e.inode == c.attrs().st_ino
                    &&& e.offset == offset + 1
                    &&& e.name@ == c.name_view()
                    &&& e.file_type == c.kind()
                },
                None => false,
            },
    {
        if self.inode_type != FileType::Directory {
            return None;
        }
        if offset >= self.children.len() as u64 {
            return None;
        }
        let idx = offset as usize;
        let child = &self.children[idx];
        Some(DirEntry {
            inode: child.stat.st_ino,
            offset: offset + 1,
            name: child.name.clone(),
            file_type: child.inode_type,
        })
    }

    /// Whether the inode has no children.
    pub fn is_empty(&self) -> (r: bool)
        ensures
            r == (self.children_view().len() == 0),
    {
        self.children.len() == 0
    }

    /// Creates a symbolic link `name` whose data is the UTF-8 encoding of `target`.
    pub fn symlink(&mut self, target: &str, name: &str, counter: &mut InodeCounter) -> (r: Result<(), VfsError>)
        requires
            old(self).wf(),
            old(counter).next_number() < u64::MAX,
        ensures
            final(self).wf(),
            old(self).same_but_children(&*final(self)),
            old(self).kind() != FileType::Directory ==> r == Err::<(), VfsError>(VfsError::NotADirectory),
            old(self).kind() == FileType::Directory && old(self).has_child(name@) ==> r == Err::<(), VfsError>(VfsError::Exists),
            r is Err ==> *final(self) == *old(self) && final(counter).next_number() == old(counter).next_number(),
            old(self).kind() == FileType::Directory && !old(self).has_child(name@) ==> {
                let i = old(self).children_view().len() as int;
                let link = final(self).children_view()[i];
                &&& r == Ok::<(), VfsError>(())
                &&& final(self).children_view().len() == i + 1
                &&& final(self).children_view().subrange(0, i) == old(self).children_view()
                &&& final(counter).next_number() == old(counter).next_number() + 1
                &&& link.kind() == FileType::Symlink
                &&& link.name_view() == name@
                &&& link.data_view() == target.spec_bytes()
                &&& link.attrs() == (Stat {
                    st_mode: mode_kind_bits(FileModeKind::Symlink),
                    st_size: target.spec_bytes().len() as u64,
                    st_blocks: sectors_for(target.spec_bytes().len() as u64) as u64,
                    ..fresh_stat(old(counter).next_number(), FileType::Symlink)
                })
                &&& link.perms_view() == fresh_permissions(FileType::Symlink)
                &&& link.parent_view() is None
                &&& link.children_view().len() == 0
            },
    {
        if self.inode_type != FileType::Directory {
            return Err(VfsError::NotADirectory);
        }
        if self.position_of(name).is_some() {
            return Err(VfsError::Exists);
        }
        let mut link_inode = TmpfsInode::new(name, FileType::Symlink, counter);
        link_inode.set_data(vstd::slice::slice_to_vec(target.as_bytes()));
        link_inode.stat.st_mode = FileModeKind::Symlink.bits();
        let idx = self.children.len();
        self.add_child(link_inode);
        proof {
            assert(self.children_view().subrange(0, idx as int) =~= old(self).children_view());
        }
        Ok(())
    }

    /// Returns the target of a symbolic link; `None` for other inodes or
    /// when the data is not valid UTF-8.
    pub fn readlink(&self) -> (r: Option<String>)
        ensures
            self.kind() != FileType::Symlink ==> r is None,
            self.kind() == FileType::Symlink ==> match r {
                Some(s) => valid_utf8(self.data_view()) && s@ == decode_utf8(self.data_view()),
                None => !valid_utf8(self.data_view()),
            },
    {
        if self.inode_type != FileType::Symlink {
            return None;
        }
        string_from_utf8(self.data.clone())
    }
}

/// Decodes UTF-8 bytes into a string; `None` when they are not valid UTF-8.
///
/// Calls `String::from_utf8`, which std documents as failing exactly on
/// invalid UTF-8 and otherwise keeping the bytes as the string's contents.
#[verifier::external_body]
fn string_from_utf8(bytes: Vec<u8>) -> (r: Option<String>)
    ensures
        r is Some <==> valid_utf8(bytes@),
        r matches Some(s) ==> s@ == decode_utf8(bytes@),
{
    String::from_utf8(bytes).ok()
}

/// Builds the root of a fresh tmpfs: `/` holding the empty directories
/// `tmp`, `var`, `dev` and `proc`, in that order.
pub fn create_tmpfs_root(counter: &mut InodeCounter) -> (r: TmpfsInode)
    requires
        old(counter).next_number() + 5 <= u64::MAX,
    ensures
        r.wf(),
        r.is_fresh_children("/"@, FileType::Directory, old(counter).next_number()),
        r.children_view().len() == 4,
        r.children_view()[0].is_fresh("tmp"@, FileType::Directory, (old(counter).next_number() + 1) as u64),
        r.children_view()[1].is_fresh("var"@, FileType::Directory, (old(counter).next_number() + 2) as u64),
        r.children_view()[2].is_fresh("dev"@, FileType::Directory, (old(counter).next_number() + 3) as u64),
        r.children_view()[3].is_fresh("proc"@, FileType::Directory, (old(counter).next_number() + 4) as u64),
        final(counter).next_number() == old(counter).next_number() + 5,
{
    let mut root = TmpfsInode::new("/", FileType::Directory, counter);
    let tmp_dir = TmpfsInode::new("tmp", FileType::Directory, counter);
    let var_dir = TmpfsInode::new("var", FileType::Directory, counter);
    let dev_dir = TmpfsInode::new("dev", FileType::Directory, counter);
    let proc_dir = TmpfsInode::new("proc", FileType::Directory, counter);
    proof {
        reveal_strlit("tmp");
        reveal_strlit("var");
        reveal_strlit("dev");
        reveal_strlit("proc");
    }
    root.children.push(tmp_dir);
    root.children.push(var_dir);
    root.children.push(dev_dir);
    root.children.push(proc_dir);
    proof {
        let c = root.children_view();
        assert forall|i: int, j: int| 0 <= i < j < c.len() implies (#[trigger] c[i]).name_view() != (#[trigger] c[j]).name_view() by {
            assert(c[i].name_view().len() != c[j].name_view().len() || c[i].name_view()[0] != c[j].name_view()[0]);
        }
    }
    root
}

impl TmpfsInode {
    /// A fresh inode as `new` makes it, except that it may have children.
    pub open spec fn is_fresh_children(&self, name: Seq<char>, t: FileType, ino: u64) -> bool {
        &&& self.kind() == t
        &&& self.attrs() == fresh_stat(ino, t)
        &&& self.name_view() == name
        &&& self.perms_view() == fresh_permissions(t)
        &&& self.parent_view() is None
        &&& self.data_view().len() == 0
    }
}

impl Inode for TmpfsInode {
    closed spec fn kind(&self) -> FileType {
        self.inode_type
    }

    closed spec fn attrs(&self) -> Stat {
        self.stat
    }

    open spec fn read_spec(&self, offset: u64, len: nat) -> Result<Seq<u8>, VfsError> {
        if self.kind() == FileType::Directory {
            Err(VfsError::IsDirectory)
        } else {
            Ok(read_bytes(self.data_view(), offset, len))
        }
    }

    open spec fn can_write(&self, offset: u64, len: nat) -> bool {
        offset + len <= max_data_len()
    }

    open spec fn write_spec(&self, offset: u64, data: Seq<u8>, after: Self, r: Result<usize, VfsError>) -> bool {
        if self.kind() == FileType::Directory {
            r == Err::<usize, VfsError>(VfsError::IsDirectory) && after == *self
        } else {
            let new_data = write_bytes(self.data_view(), offset, data);
            &&& r == Ok::<usize, VfsError>(data.len() as usize)
            &&& after.data_view() == new_data
            &&& after.attrs() == (Stat {
                st_size: new_data.len() as u64,
                st_blocks: sectors_for(new_data.len() as u64) as u64,
                ..self.attrs()
            })
            &&& self.same_but_contents(&after)
            &&& (self.wf() ==> after.wf())
        }
    }

    open spec fn can_truncate(&self, size: u64) -> bool {
        size <= max_data_len()
    }

    open spec fn truncate_spec(&self, size: u64, after: Self, r: Result<(), VfsError>) -> bool {
        &&& r == Ok::<(), VfsError>(())
        &&& after.data_view() == resize_bytes(self.data_view(), size as nat)
        &&& after.attrs() == (Stat { st_size: size, st_blocks: sectors_for(size) as u64, ..self.attrs() })
        &&& self.same_but_contents(&after)
        &&& (self.wf() ==> after.wf())
    }

    fn inode_type(&self) -> (r: FileType) {
        self.inode_type
    }

    fn stat(&self) -> (r: Stat) {
        self.stat
    }

    fn read(&self, offset: u64, buf: &mut [u8]) -> (r: Result<usize, VfsError>) {
        if self.inode_type == FileType::Directory {
            return Err(VfsError::IsDirectory);
        }
        let len = self.data.len();
        if offset >= len as u64 {
            proof {
                assert(final(buf)@ =~= Seq::<u8>::empty() + old(buf)@.skip(0));
            }
            return Ok(0);
        }
        let start = offset as usize;
        let avail = len - start;
        let copy_len = if buf.len() < avail { buf.len() } else { avail };
        let mut i: usize = 0;
        while i < copy_len
            invariant
                start == offset,
                len == self.data@.len(),
                copy_len <= buf@.len(),
                start + copy_len <= self.data@.len(),
                buf@.len() == old(buf)@.len(),
                0 <= i <= copy_len,
                forall|j: int| 0 <= j < i ==> buf@[j] == self.data@[start + j],
                forall|j: int| copy_len <= j < buf@.len() ==> buf@[j] == old(buf)@[j],
            decreases copy_len - i,
        {
            buf[i] = self.data[start + i];
            i = i + 1;
        }
        proof {
            let bytes = read_bytes(self.data_view(), offset, old(buf)@.len());
            assert(bytes.len() == copy_len);
            assert(buf@ =~= bytes + old(buf)@.skip(copy_len as int));
        }
        Ok(copy_len)
    }

    fn write(&mut self, offset: u64, buf: &[u8]) -> (r: Result<usize, VfsError>) {
        if self.inode_type == FileType::Directory {
            return Err(VfsError::IsDirectory);
        }
        let start = offset as usize;
        let end = start + buf.len();
        if end > self.data.len() {
            self.data.resize(end, 0);
        }
        let ghost grown = self.data@;
        let data_len = self.data.len();
        let mut i: usize = 0;
        while i < buf.len()
            invariant
                start == offset,
                data_len == self.data@.len(),
                self.children@ == old(self).children@,
                self.name == old(self).name,
                self.permissions == old(self).permissions,
                self.parent == old(self).parent,
                self.inode_type == old(self).inode_type,
                self.stat == old(self).stat,
                end == start + buf@.len(),
                end <= self.data@.len(),
                self.data@.len() == grown.len(),
                0 <= i <= buf@.len(),
                forall|j: int| 0 <= j < grown.len() && !(start <= j < start + i) ==> self.data@[j] == grown[j],
                forall|j: int| start <= j < start + i ==> self.data@[j] == buf@[j - start],
            decreases buf@.len() - i,
        {
            self.data[start + i] = buf[i];
            i = i + 1;
        }
        self.stat.st_size = self.data.len() as u64;
        self.stat.st_blocks = blocks_for_size(self.stat.st_size);
        proof {
            let expected = write_bytes(old(self).data_view(), offset, buf@);
            assert forall|j: int| 0 <= j < grown.len() && !(start <= j < end) implies grown[j] == (if j < old(self).data@.len() { old(self).data@[j] } else { 0u8 }) by {
                if end > old(self).data@.len() {
                    if j < old(self).data@.len() {
                        assert(grown.subrange(0, old(self).data@.len() as int)[j] == old(self).data@[j]);
                    } else {
                        assert(vstd::pervasive::cloned::<u8>(0u8, grown[j]));
                    }
                }
            }
            assert(expected.len() == self.data@.len());
            assert forall|j: int| 0 <= j < expected.len() implies self.data@[j] == expected[j] by {
                if start <= j < end {
                } else {
                    assert(self.data@[j] == grown[j]);
                }
            }
            assert(self.data@ =~= expected);
            assert(self.children_view() == old(self).children_view());
        }
        Ok(buf.len())
    }

    fn truncate(&mut self, size: u64) -> (r: Result<(), VfsError>) {
        let ghost before = self.data@;
        self.data.resize(size as usize, 0);
        self.stat.st_size = size;
        self.stat.st_blocks = blocks_for_size(size);
        proof {
            if size > before.len() {
                assert forall|j: int| before.len() <= j < size implies self.data@[j] == 0u8 by {
                    assert(vstd::pervasive::cloned::<u8>(0u8, self.data@[j]));
                }
                assert forall|j: int| 0 <= j < before.len() implies self.data@[j] == before[j] by {
                    assert(self.data@.subrange(0, before.len() as int)[j] == before[j]);
                }
            }
            assert(self.data@ =~= resize_bytes(before, size as nat));
            assert(self.children_view() == old(self).children_view());
        }
        Ok(())
    }

    fn sync(&self) -> (r: Result<(), VfsError>) {
        Ok(())
    }
}


/// Reading back what was written: after a successful write of `data` at
/// `offset` to a tmpfs file, a read of `data.len()` bytes at `offset` returns
/// exactly `data`.
pub proof fn lemma_read_after_write(before: TmpfsInode, after: TmpfsInode, offset: u64, data: Seq<u8>, n: usize)
    requires
        before.write_spec(offset, data, after, Ok(n)),
    ensures
        after.read_spec(offset, data.len()) == Ok::<Seq<u8>, VfsError>(data),
{
    if before.kind() != FileType::Directory {
        let new_data = write_bytes(before.data_view(), offset, data);
        if data.len() == 0 {
            assert(read_bytes(new_data, offset, 0) =~= data);
        } else {
            assert(read_bytes(new_data, offset, data.len()) =~= data);
        }
    }
}

/// What a successful write does to a tmpfs file: all of `data` is written,
/// the size becomes the larger of the old size of the data and the end of
/// the write, the bytes outside the written range stay, and a gap between the
/// old end and `offset` reads as zeros.
pub proof fn lemma_write_effect(before: TmpfsInode, after: TmpfsInode, offset: u64, data: Seq<u8>, n: usize)
    requires
        before.can_write(offset, data.len()),
        before.data_view().len() <= u64::MAX,
        before.write_spec(offset, data, after, Ok(n)),
    ensures
        before.kind() != FileType::Directory,
        n == data.len(),
        after.attrs().st_size == (if offset + data.len() > before.data_view().len() {
            offset + data.len()
        } else {
            before.data_view().len() as int
        }),
        after.data_view().len() == after.attrs().st_size,
        forall|i: int|
            0 <= i < before.data_view().len() && !(offset <= i < offset + data.len())
                ==> #[trigger] after.data_view()[i] == before.data_view()[i],
        forall|i: int| before.data_view().len() <= i < offset ==> #[trigger] after.data_view()[i] == 0u8,
        after.read_spec(offset, data.len()) == Ok::<Seq<u8>, VfsError>(data),
{
    lemma_read_after_write(before, after, offset, data, n);
}

/// Removing a name removes it: in a well-formed directory, once the child
/// named `name` is taken out, no remaining child carries that name.
pub proof fn lemma_removed_name_absent(dir: TmpfsInode, name: Seq<char>)
    requires
        dir.wf(),
        dir.has_child(name),
    ensures
        forall|j: int| 0 <= j < dir.children_view().remove(dir.child_index(name)).len()
            ==> (#[trigger] dir.children_view().remove(dir.child_index(name))[j]).name_view() != name,
{
    let k = dir.child_index(name);
    let c = dir.children_view();
    let rest = c.remove(k);
    assert forall|j: int| 0 <= j < rest.len() implies (#[trigger] rest[j]).name_view() != name by {
        let oj = if j < k { j } else { j + 1 };
        assert(rest[j] == c[oj]);
        if oj < k {
            assert(c[oj].name_view() != c[k].name_view());
        } else {
            assert(c[k].name_view() != c[oj].name_view());
        }
    }
}

/// Removing what was just added gives the directory back: when a child named
/// `name` was appended to a well-formed directory that held no such name (as
/// `create`, `mkdir` and `symlink` do), the child that `unlink` or `rmdir`
/// takes out for `name` is that one, and the children left are the ones from
/// before.
pub proof fn lemma_remove_undoes_add(before: TmpfsInode, after: TmpfsInode, name: Seq<char>)
    requires
        after.wf(),
        !before.has_child(name),
        after.children_view().len() == before.children_view().len() + 1,
        after.children_view().subrange(0, before.children_view().len() as int) == before.children_view(),
        after.children_view()[before.children_view().len() as int].name_view() == name,
    ensures
        after.has_child(name),
        after.child_index(name) == before.children_view().len(),
        after.children_view().remove(after.child_index(name)) == before.children_view(),
{
    let n = before.children_view().len() as int;
    after.lemma_unique_index(n, name);
    assert(after.children_view().remove(n) =~= before.children_view());
}

/// A symbolic link gives back its target: the data that `symlink` stores for
/// `target` is valid UTF-8 and decodes to `target`, so `readlink` returns it.
pub proof fn lemma_readlink_of_symlink(target: &str)
    ensures
        valid_utf8(target.spec_bytes()),
        decode_utf8(target.spec_bytes()) == target@,
{
    vstd::utf8::encode_utf8_valid_utf8(target@);
    vstd::utf8::encode_utf8_decode_utf8(target@);
}

} // verus!
