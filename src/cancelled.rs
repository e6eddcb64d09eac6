use vstd::prelude::*;

use crate::job::JobID;

verus! {

/// Capacity of the recently-cancelled set that a completion registry keeps.
pub const CANCELLED_CAPACITY: usize = 32;

/// `s` with `id` taken out (its single occurrence, if any).
pub open spec fn spec_without(s: Seq<JobID>, id: JobID) -> Seq<JobID> {
    if s.contains(id) {
        s.remove(s.index_of(id))
    } else {
        s
    }
}

/// `s` after inserting `id` into a FIFO set of capacity `cap`: an id already
/// present moves to the newest position; once the set is over capacity the
/// oldest id is evicted.
pub open spec fn spec_insert(s: Seq<JobID>, id: JobID, cap: nat) -> Seq<JobID> {
    let t = spec_without(s, id).push(id);
    if t.len() > cap {
        t.drop_first()
    } else {
        t
    }
}

/// The set reached by inserting `ids` in order, starting from `s`.
pub open spec fn spec_insert_all(s: Seq<JobID>, ids: Seq<JobID>, cap: nat) -> Seq<JobID>
    decreases ids.len(),
{
    if ids.len() == 0 {
        s
    } else {
        spec_insert(spec_insert_all(s, ids.drop_last(), cap), ids.last(), cap)
    }
}

/// A bounded, insertion-ordered set of job identifiers that were cancelled
/// before completing. Oldest first.
pub struct RecentlyCancelled {
    ids: Vec<JobID>,
    capacity: usize,
}

impl View for RecentlyCancelled {
    type V = Seq<JobID>;

    closed spec fn view(&self) -> Seq<JobID> {
        self.ids@
    }
}

impl RecentlyCancelled {
    /// The fixed capacity of the set.
    pub closed spec fn spec_capacity(&self) -> nat {
        self.capacity as nat
    }

    /// No id twice, and never more ids than the capacity.
    pub open spec fn wf(&self) -> bool {
        &&& self@.no_duplicates()
        &&& self@.len() <= self.spec_capacity()
    }

    /// An empty set of the given capacity.
    pub fn new(capacity: usize) -> (r: RecentlyCancelled)
        ensures
            r.wf(),
            r@ == Seq::<JobID>::empty(),
            r.spec_capacity() == capacity,
    {
        RecentlyCancelled { ids: Vec::new(), capacity }
    }

    pub fn capacity(&self) -> (r: usize)
        ensures
            r == self.spec_capacity(),
    {
        self.capacity
    }

    pub fn len(&self) -> (r: usize)
        ensures
            r == self@.len(),
    {
        self.ids.len()
    }

    /// Position of `id` in the set, if it is there.
    fn position(&self, id: JobID) -> (r: Option<usize>)
        requires
            self.wf(),
        ensures
            r is None ==> !self@.contains(id),
            r matches Some(i) ==> i < self@.len() && self@[i as int] == id && self@.index_of(id)
                == i,
    {
        let mut i: usize = 0;
        while i < self.ids.len()
            invariant
                i <= self.ids@.len(),
                self.wf(),
                forall|k: int| 0 <= k < i ==> self.ids@[k] != id,
            decreases self.ids@.len() - i,
        {
            if self.ids[i] == id {
                proof {
                    assert(self@.contains(id));
                    let j = self@.index_of(id);
                    assert(self@[j] == id);
                    assert(j == i as int);
                }
                return Some(i);
            }
            i = i + 1;
        }
        None
    }

    pub fn contains(&self, id: JobID) -> (r: bool)
        requires
            self.wf(),
        ensures
            r == self@.contains(id),
    {
        self.position(id).is_some()
    }

    /// Takes `id` out of the set (used when the id is issued again).
    pub fn remove(&mut self, id: JobID)
        requires
            old(self).wf(),
        ensures
            final(self).wf(),
            final(self)@ == spec_without(old(self)@, id),
            final(self).spec_capacity() == old(self).spec_capacity(),
    {
        match self.position(id) {
            Some(i) => {
                proof {
                    lemma_remove_keeps_distinct(self@, i as int);
                }
                self.ids.remove(i);
            },
            None => {},
        }
    }

    /// Inserts `id` as the newest member, evicting the oldest member once the
    /// capacity is exceeded.
    pub fn insert(&mut self, id: JobID)
        requires
            old(self).wf(),
        ensures
            final(self).wf(),
            final(self)@ == spec_insert(old(self)@, id, old(self).spec_capacity()),
            final(self).spec_capacity() == old(self).spec_capacity(),
    {
        self.remove(id);
        let ghost before = self@;
        proof {
            lemma_without_not_contains(old(self)@, id);
        }
        self.ids.push(id);
        assert(self@.no_duplicates()) by {
            assert(forall|k: int| 0 <= k < before.len() ==> before[k] != id);
        }
        if self.ids.len() > self.capacity {
            self.ids.remove(0);
            assert(self@ =~= before.push(id).drop_first());
        }
    }
}

proof fn lemma_remove_keeps_distinct(s: Seq<JobID>, i: int)
    requires
        s.no_duplicates(),
        0 <= i < s.len(),
    ensures
        s.remove(i).no_duplicates(),
        forall|x: JobID| s.remove(i).contains(x) ==> s.contains(x),
{
    let r = s.remove(i);
    assert forall|a: int, b: int| 0 <= a < r.len() && 0 <= b < r.len() && a != b implies r[a]
        != r[b] by {
        let ia = if a < i { a } else { a + 1 };
        let ib = if b < i { b } else { b + 1 };
        assert(r[a] == s[ia]);
        assert(r[b] == s[ib]);
    }
    assert forall|x: JobID| r.contains(x) implies s.contains(x) by {
        let k = choose|k: int| 0 <= k < r.len() && r[k] == x;
        let sk = if k < i { k } else { k + 1 };
        assert(s[sk] == x);
    }
}

proof fn lemma_without_not_contains(s: Seq<JobID>, id: JobID)
    requires
        s.no_duplicates(),
    ensures
        !spec_without(s, id).contains(id),
        spec_without(s, id).no_duplicates(),
        spec_without(s, id).len() == if s.contains(id) {
            s.len() - 1
        } else {
            s.len() as int
        },
{
    if s.contains(id) {
        let i = s.index_of(id);
        lemma_remove_keeps_distinct(s, i);
        let r = s.remove(i);
        if r.contains(id) {
            let k = choose|k: int| 0 <= k < r.len() && r[k] == id;
            let sk = if k < i { k } else { k + 1 };
            assert(s[sk] == id && s[i] == id && sk != i);
        }
    }
}

/// Inserting never takes the set over its capacity, and keeps it free of
/// duplicates.
pub proof fn lemma_insert_within_capacity(s: Seq<JobID>, id: JobID, cap: nat)
    requires
        s.no_duplicates(),
        s.len() <= cap,
    ensures
        spec_insert(s, id, cap).len() <= cap,
        spec_insert(s, id, cap).no_duplicates(),
        cap > 0 ==> spec_insert(s, id, cap).last() == id,
{
    lemma_without_not_contains(s, id);
    let w = spec_without(s, id);
    let t = w.push(id);
    assert(t.no_duplicates()) by {
        assert(forall|k: int| 0 <= k < w.len() ==> w[k] != id);
    }
    if t.len() > cap {
        assert(t.drop_first() =~= t.subrange(1, t.len() as int));
    }
}

/// FIFO eviction: inserting a new id into a full set drops exactly the oldest
/// member.
pub proof fn lemma_insert_evicts_oldest(s: Seq<JobID>, id: JobID, cap: nat)
    requires
        s.no_duplicates(),
        s.len() == cap,
        cap > 0,
        !s.contains(id),
    ensures
        spec_insert(s, id, cap) == s.drop_first().push(id),
        !spec_insert(s, id, cap).contains(s[0]),
{
    let r = spec_insert(s, id, cap);
    assert(r =~= s.drop_first().push(id));
    if r.contains(s[0]) {
        let k = choose|k: int| 0 <= k < r.len() && r[k] == s[0];
        if k < r.len() - 1 {
            assert(s[k + 1] == s[0]);
        }
    }
}

/// Inserting distinct ids one after another into an empty set leaves exactly
/// the newest `cap` of them, oldest first. In particular, after `cap + 1`
/// distinct ids the first one is gone.
pub proof fn lemma_insert_all_keeps_newest(ids: Seq<JobID>, cap: nat)
    requires
        ids.no_duplicates(),
    ensures
        spec_insert_all(Seq::empty(), ids, cap) == ids.subrange(
            if ids.len() > cap {
                ids.len() - cap
            } else {
                0
            },
            ids.len() as int,
        ),
        ids.len() > cap ==> !spec_insert_all(Seq::empty(), ids, cap).contains(ids[0]),
    decreases ids.len(),
{
    let n = ids.len() as int;
    let lo = if ids.len() > cap {
        n - cap
    } else {
        0
    };
    if n > 0 {
        let init = ids.drop_last();
        assert(init.no_duplicates());
        lemma_insert_all_keeps_newest(init, cap);
        let m = init.len() as int;
        let plo = if init.len() > cap {
            m - cap
        } else {
            0
        };
        let prev = init.subrange(plo, m);
        let x = ids.last();
        assert(!prev.contains(x)) by {
            if prev.contains(x) {
                let k = choose|k: int| 0 <= k < prev.len() && prev[k] == x;
                assert(ids[plo + k] == ids[n - 1]);
            }
        }
        assert(spec_without(prev, x) == prev);
        let t = prev.push(x);
        if t.len() > cap {
            assert(t.drop_first() =~= ids.subrange(lo, n));
        } else {
            assert(t =~= ids.subrange(lo, n));
        }
    } else {
        assert(ids.subrange(0, 0) =~= Seq::<JobID>::empty());
    }
    if ids.len() > cap {
        let r = ids.subrange(lo, n);
        if r.contains(ids[0]) {
            let k = choose|k: int| 0 <= k < r.len() && r[k] == ids[0];
            assert(ids[lo + k] == ids[0]);
        }
    }
}

} // verus!
