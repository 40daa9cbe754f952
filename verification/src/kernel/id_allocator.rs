//! Task identifiers, allocated from a bitmap: identifier `i + 1` is in use
//! when bit `i` is set, a new identifier is the lowest one free, and a freed
//! identifier can be handed out again.
use vstd::prelude::*;

verus! {

/// Number of task identifiers; they run from 1 to `MAX_TASK_IDS`.
pub const MAX_TASK_IDS: usize = 1024;

/// The bitmap of the task identifiers in use.
pub struct IdAllocator {
    used: Vec<bool>,
}

/// What an allocation does: from bits `before` it takes the lowest free
/// identifier, `Some(id)`, and sets its bit; when every bit is set it
/// returns `None` and changes nothing.
pub open spec fn alloc_outcome(before: Seq<bool>, after: Seq<bool>, r: Option<usize>) -> bool {
    match r {
        Some(id) => {
            &&& 1 <= id <= before.len()
            &&& !before[id - 1]
            &&& forall|j: int| 0 <= j < id - 1 ==> #[trigger] before[j]
            &&& after == before.update(id - 1, true)
        },
        None => {
            &&& forall|j: int| 0 <= j < before.len() ==> #[trigger] before[j]
            &&& after == before
        },
    }
}

/// The bits after freeing `id`: its bit is cleared; an identifier out of
/// range changes nothing.
pub open spec fn free_bits(used: Seq<bool>, id: usize) -> Seq<bool> {
    if 1 <= id <= used.len() {
        used.update(id - 1, false)
    } else {
        used
    }
}

/// The number of bits set.
pub open spec fn count_used(used: Seq<bool>) -> nat
    decreases used.len(),
{
    if used.len() == 0 {
        0
    } else {
        count_used(used.drop_last()) + if used.last() { 1nat } else { 0nat }
    }
}

impl IdAllocator {
    /// The bitmap: bit `i` is set when identifier `i + 1` is in use.
    pub closed spec fn bits(&self) -> Seq<bool> {
        self.used@
    }

    /// Every identifier free.
    pub fn new() -> (r: Self)
        ensures
            r.bits() == Seq::new(MAX_TASK_IDS as nat, |i: int| false),
    {
        let mut used: Vec<bool> = Vec::new();
        let mut i: usize = 0;
        while i < MAX_TASK_IDS
            invariant
                i <= MAX_TASK_IDS,
                used@ == Seq::new(i as nat, |k: int| false),
            decreases MAX_TASK_IDS - i,
        {
            used.push(false);
            proof {
                assert(used@ =~= Seq::new((i + 1) as nat, |k: int| false));
            }
            i = i + 1;
        }
        IdAllocator { used }
    }

    /// Takes the lowest free identifier; `None` when all are in use.
    pub fn allocate(&mut self) -> (r: Option<usize>)
        ensures
            alloc_outcome(old(self).bits(), final(self).bits(), r),
    {
        let mut i: usize = 0;
        while i < self.used.len()
            invariant
                i <= self.used@.len(),
                self.used@ == old(self).used@,
                forall|j: int| 0 <= j < i ==> #[trigger] self.used@[j],
            decreases self.used@.len() - i,
        {
            if !self.used[i] {
                self.used.set(i, true);
                return Some(i + 1);
            }
            i = i + 1;
        }
        None
    }

    /// Frees identifier `id`, so that it can be handed out again.
    pub fn free(&mut self, id: usize)
        ensures
            final(self).bits() == free_bits(old(self).bits(), id),
    {
        if id >= 1 && id <= self.used.len() {
            self.used.set(id - 1, false);
        }
    }

    /// Frees every identifier.
    pub fn reset(&mut self)
        ensures
            final(self).bits() == Seq::new(old(self).bits().len(), |i: int| false),
    {
        let n = self.used.len();
        let mut i: usize = 0;
        while i < n
            invariant
                n == self.used@.len(),
                i <= n,
                forall|k: int| 0 <= k < i ==> !#[trigger] self.used@[k],
            decreases n - i,
        {
            self.used.set(i, false);
            i = i + 1;
        }
        proof {
            assert(self.used@ =~= Seq::new(old(self).used@.len(), |i: int| false));
        }
    }

    /// Whether identifier `id` is in use.
    pub fn is_allocated(&self, id: usize) -> (r: bool)
        ensures
            r == (1 <= id <= self.bits().len() && self.bits()[id - 1]),
    {
        id >= 1 && id <= self.used.len() && self.used[id - 1]
    }

    /// The number of identifiers in use.
    pub fn allocated_count(&self) -> (r: usize)
        ensures
            r == count_used(self.bits()),
    {
        let mut count: usize = 0;
        let mut i: usize = 0;
        while i < self.used.len()
            invariant
                i <= self.used@.len(),
                count == count_used(self.used@.take(i as int)),
                count <= i,
            decreases self.used@.len() - i,
        {
            proof {
                assert(self.used@.take(i + 1).drop_last() =~= self.used@.take(i as int));
            }
            if self.used[i] {
                count = count + 1;
            }
            i = i + 1;
        }
        proof {
            assert(self.used@.take(i as int) =~= self.used@);
        }
        count
    }
}

/// Freeing what was just allocated gives the bitmap back.
pub proof fn lemma_free_undoes_alloc(before: Seq<bool>, after: Seq<bool>, id: usize)
    requires
        alloc_outcome(before, after, Some(id)),
    ensures
        free_bits(after, id) == before,
{
    assert(free_bits(after, id) =~= before);
}

/// A freed identifier is handed out again: after `free(id)`, the next
/// allocation succeeds and gives `id` or a lower identifier.
pub proof fn lemma_freed_id_reused(used: Seq<bool>, id: usize, after: Seq<bool>, r: Option<usize>)
    requires
        1 <= id <= used.len(),
        alloc_outcome(free_bits(used, id), after, r),
    ensures
        r matches Some(k) && k <= id,
{
    let freed = free_bits(used, id);
    assert(!freed[id - 1]);
    if let Some(k) = r {
        if k > id {
            assert(freed[id - 1]);
        }
    }
}

} // verus!
