//! Directory entries: names bound to inodes, cached in a tree.
use vstd::prelude::*;

verus! {

/// The state of a directory entry.
#[derive(Debug, Clone, Copy, PartialEq, Eq, Structural)]
pub enum DentryFlags {
    Normal,
    Negative,
    Mounted,
}

/// A directory entry: a name, the number of the inode it names (none for a
/// negative entry), the number of the inode of the directory it lies in
/// (none for a root) and the entries below it.
pub struct Dentry {
    pub d_name: String,
    pub d_inode: Option<u64>,
    pub d_parent: Option<u64>,
    pub d_child: Vec<Dentry>,
    pub d_flags: DentryFlags,
    pub d_count: usize,
}

impl Dentry {
    /// An entry `name` for `inode` in the directory `parent`; negative when
    /// there is no inode.
    pub fn new(name: &str, inode: Option<u64>, parent: Option<u64>) -> (r: Self)
        ensures
            r.d_name@ == name@,
            r.d_inode == inode,
            r.d_parent == parent,
            r.d_child@.len() == 0,
            r.d_flags == (if inode is None { DentryFlags::Negative } else { DentryFlags::Normal }),
            r.d_count == 0,
    {
        let is_negative = inode.is_none();
        Dentry {
            d_name: name.to_owned(),
            d_inode: inode,
            d_parent: parent,
            d_child: Vec::new(),
            d_flags: if is_negative {
                DentryFlags::Negative
            } else {
                DentryFlags::Normal
            },
            d_count: 0,
        }
    }

    /// The index of the first child named `name`.
    pub fn lookup(&self, name: &str) -> (r: Option<usize>)
        ensures
            match r {
                Some(i) => {
                    &&& i < self.d_child@.len()
                    &&& self.d_child@[i as int].d_name@ == name@
                    &&& forall|j: int| 0 <= j < i ==> (#[trigger] self.d_child@[j]).d_name@ != name@
                },
                None => forall|j: int| 0 <= j < self.d_child@.len() ==> (#[trigger] self.d_child@[j]).d_name@ != name@,
            },
    {
        let key: String = name.to_owned();
        let mut i: usize = 0;
        while i < self.d_child.len()
            invariant
                i <= self.d_child@.len(),
                key@ == name@,
                forall|j: int| 0 <= j < i ==> (#[trigger] self.d_child@[j]).d_name@ != name@,
            decreases self.d_child@.len() - i,
        {
            if self.d_child[i].d_name == key {
                return Some(i);
            }
            i = i + 1;
        }
        None
    }

    /// Adds `child` below this entry.
    pub fn add_child(&mut self, child: Dentry)
        ensures
            final(self).d_child@ == old(self).d_child@.push(child),
            final(self).d_name == old(self).d_name,
            final(self).d_inode == old(self).d_inode,
            final(self).d_parent == old(self).d_parent,
            final(self).d_flags == old(self).d_flags,
            final(self).d_count == old(self).d_count,
    {
        self.d_child.push(child);
    }

    /// Removes the first child named `name`, if there is one.
    pub fn remove_child(&mut self, name: &str)
        ensures
            final(self).d_name == old(self).d_name,
            final(self).d_inode == old(self).d_inode,
            final(self).d_parent == old(self).d_parent,
            final(self).d_flags == old(self).d_flags,
            final(self).d_count == old(self).d_count,
            (forall|j: int| 0 <= j < old(self).d_child@.len() ==> (#[trigger] old(self).d_child@[j]).d_name@ != name@)
                ==> final(self).d_child@ == old(self).d_child@,
            forall|i: int|
                0 <= i < old(self).d_child@.len() && (#[trigger] old(self).d_child@[i]).d_name@ == name@
                    && (forall|j: int| 0 <= j < i ==> (#[trigger] old(self).d_child@[j]).d_name@ != name@)
                    ==> final(self).d_child@ == old(self).d_child@.remove(i),
    {
        match self.lookup(name) {
            Some(pos) => {
                let _removed = self.d_child.remove(pos);
                proof {
                    assert forall|i: int|
                        0 <= i < old(self).d_child@.len() && (#[trigger] old(self).d_child@[i]).d_name@ == name@
                            && (forall|j: int| 0 <= j < i ==> (#[trigger] old(self).d_child@[j]).d_name@ != name@)
                        implies i == pos by {
                        if i < pos {
                        } else if i > pos {
                            assert(old(self).d_child@[pos as int].d_name@ != name@);
                        }
                    }
                }
            },
            None => {},
        }
    }

    /// Whether the entry names an inode.
    pub fn d_is_positive(&self) -> (r: bool)
        ensures
            r == (self.d_inode is Some),
    {
        self.d_inode.is_some()
    }

    /// Whether the entry is marked negative.
    pub fn d_is_negative(&self) -> (r: bool)
        ensures
            r == (self.d_flags == DentryFlags::Negative),
    {
        self.d_flags == DentryFlags::Negative
    }

    /// Whether something is mounted on the entry.
    pub fn d_mountpoint(&self) -> (r: bool)
        ensures
            r == (self.d_flags == DentryFlags::Mounted),
    {
        self.d_flags == DentryFlags::Mounted
    }

    /// Drops the inode and marks the entry negative.
    pub fn d_invalidate(&mut self)
        ensures
            final(self).d_inode is None,
            final(self).d_flags == DentryFlags::Negative,
            final(self).d_name == old(self).d_name,
            final(self).d_parent == old(self).d_parent,
            final(self).d_child == old(self).d_child,
            final(self).d_count == old(self).d_count,
    {
        self.d_inode = None;
        self.d_flags = DentryFlags::Negative;
    }
}

/// An entry made by `new` is positive exactly when it is not negative, and
/// an invalidated entry is negative and not positive.
pub proof fn lemma_dentry_polarity(d: Dentry, inode: Option<u64>)
    ensures
        (d.d_inode == inode && d.d_flags == (if inode is None { DentryFlags::Negative } else { DentryFlags::Normal }))
            ==> ((d.d_inode is Some) <==> d.d_flags != DentryFlags::Negative),
        (d.d_inode is None && d.d_flags == DentryFlags::Negative) ==> !(d.d_inode is Some),
{
}

} // verus!
