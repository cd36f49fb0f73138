use vstd::prelude::*;

verus! {

/// Entries ordered by strictly increasing identifier: each identifier at most once.
pub open spec fn sorted_by_id<P>(s: Seq<(u64, P)>) -> bool {
    forall|i: int, j: int| 0 <= i < j < s.len() ==> s[i].0 < s[j].0
}

/// Whether an entry of `s` carries the identifier `id`.
pub open spec fn has_id<P>(s: Seq<(u64, P)>, id: u64) -> bool {
    exists|i: int| 0 <= i < s.len() && s[i].0 == id
}

/// `new` is `old` with `id` placed at `pos`: the entry of `id` is overwritten where
/// there is one, and otherwise a new entry is added at its place in the order.
pub open spec fn placed<P>(old: Seq<(u64, P)>, id: u64, pos: P, new: Seq<(u64, P)>) -> bool {
    &&& sorted_by_id(new)
    &&& forall|i: int| 0 <= i < old.len() && old[i].0 == id ==> new == old.update(i, (id, pos))
    &&& !has_id(old, id) ==> exists|j: int| 0 <= j <= old.len() && new == old.insert(j, (id, pos))
}

/// `new` is `old` without the entry of `id`; nothing changes where there is none.
pub open spec fn lifted<P>(old: Seq<(u64, P)>, id: u64, new: Seq<(u64, P)>) -> bool {
    &&& forall|i: int| 0 <= i < old.len() && old[i].0 == id ==> new == old.remove(i)
    &&& !has_id(old, id) ==> new == old
}

/// The touches that are down, each identifier with its last known position,
/// kept in increasing order of identifier.
pub struct TouchSet<P> {
    entries: Vec<(u64, P)>,
}

impl<P> View for TouchSet<P> {
    type V = Seq<(u64, P)>;

    closed spec fn view(&self) -> Seq<(u64, P)> {
        self.entries@
    }
}

impl<P: Copy> TouchSet<P> {
    pub open spec fn wf(&self) -> bool {
        sorted_by_id(self@)
    }

    /// An empty set.
    pub fn new() -> (r: Self)
        ensures
            r.wf(),
            r@ == Seq::<(u64, P)>::empty(),
    {
        TouchSet { entries: Vec::new() }
    }

    /// The number of touches that are down.
    pub fn len(&self) -> (r: usize)
        ensures
            r == self@.len(),
    {
        self.entries.len()
    }

    /// The position of the touch at rank `i` in the order of identifiers.
    pub fn position(&self, i: usize) -> (r: P)
        requires
            i < self@.len(),
        ensures
            r == self@[i as int].1,
    {
        self.entries[i].1
    }

    /// The first index whose identifier is not below `id`.
    fn rank_of(&self, id: u64) -> (r: usize)
        requires
            self.wf(),
        ensures
            r <= self@.len(),
            forall|k: int| 0 <= k < r ==> self@[k].0 < id,
            forall|k: int| r <= k < self@.len() ==> self@[k].0 >= id,
    {
        let mut i: usize = 0;
        while i < self.entries.len() && self.entries[i].0 < id
            invariant
                i <= self@.len(),
                self@ == self.entries@,
                forall|k: int| 0 <= k < i ==> self@[k].0 < id,
            decreases self@.len() - i,
        {
            i = i + 1;
        }
        proof {
            if i < self@.len() {
                assert forall|k: int| i <= k < self@.len() implies self@[k].0 >= id by {
                    if k > i {
                        assert(self@[i as int].0 < self@[k].0);
                    }
                }
            }
        }
        i
    }

    /// Records that the touch `id` is down at `pos`.
    pub fn put(&mut self, id: u64, pos: P)
        requires
            old(self).wf(),
        ensures
            final(self).wf(),
            placed(old(self)@, id, pos, final(self)@),
    {
        let i = self.rank_of(id);
        let ghost before = self@;
        if i < self.entries.len() && self.entries[i].0 == id {
            self.entries.set(i, (id, pos));
            proof {
                assert forall|k: int| 0 <= k < before.len() && before[k].0 == id implies self@
                    == before.update(k, (id, pos)) by {
                    if k != i {
                        if k < i {
                            assert(before[k].0 < before[i as int].0);
                        } else {
                            assert(before[i as int].0 < before[k].0);
                        }
                    }
                }
            }
        } else {
            self.entries.insert(i, (id, pos));
            proof {
                assert(self@ == before.insert(i as int, (id, pos)));
                assert forall|a: int, b: int| 0 <= a < b < self@.len() implies self@[a].0
                    < self@[b].0 by {
                    if b < i {
                    } else if a > i {
                    } else if a == i {
                    } else if b == i {
                    } else {
                        assert(self@[a] == before[a]);
                        assert(self@[b] == before[b - 1]);
                    }
                }
                assert(!has_id(before, id)) by {
                    if has_id(before, id) {
                        let k = choose|k: int| 0 <= k < before.len() && before[k].0 == id;
                        if k >= i {
                            if k > i {
                                assert(before[i as int].0 < before[k].0);
                            }
                        }
                    }
                }
            }
        }
    }

    /// Records that the touch `id` is up; nothing changes where it is not down.
    /// Says whether it was down.
    pub fn lift(&mut self, id: u64) -> (r: bool)
        requires
            old(self).wf(),
        ensures
            final(self).wf(),
            lifted(old(self)@, id, final(self)@),
            r == has_id(old(self)@, id),
    {
        let i = self.rank_of(id);
        let ghost before = self@;
        if i < self.entries.len() && self.entries[i].0 == id {
            self.entries.remove(i);
            proof {
                assert forall|k: int| 0 <= k < before.len() && before[k].0 == id implies self@
                    == before.remove(k) by {
                    if k != i {
                        if k < i {
                            assert(before[k].0 < before[i as int].0);
                        } else {
                            assert(before[i as int].0 < before[k].0);
                        }
                    }
                }
                assert forall|a: int, b: int| 0 <= a < b < self@.len() implies self@[a].0
                    < self@[b].0 by {
                    if a < i {
                        if b >= i {
                            assert(self@[b] == before[b + 1]);
                        }
                    } else {
                        assert(self@[a] == before[a + 1]);
                        assert(self@[b] == before[b + 1]);
                    }
                }
            }
            true
        } else {
            proof {
                assert(!has_id(before, id)) by {
                    if has_id(before, id) {
                        let k = choose|k: int| 0 <= k < before.len() && before[k].0 == id;
                        if k > i {
                            assert(before[i as int].0 < before[k].0);
                        }
                    }
                }
            }
            false
        }
    }
}

} // verus!
