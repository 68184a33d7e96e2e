use vstd::prelude::*;

verus! {

/// A key of a [`Table`]: two keys denote the same entry when their views agree.
pub trait TableKey: View + Sized {
    fn same_key(&self, other: &Self) -> (r: bool)
        ensures
            r == (self@ == other@),
    ;
}

/// A finite map from keys to values, kept as a list of entries whose keys are
/// pairwise distinct. Composite keys make collisions between unrelated records
/// impossible by construction.
pub struct Table<K, V> {
    entries: Vec<(K, V)>,
}

impl<K: TableKey, V> View for Table<K, V> {
    type V = Map<<K as View>::V, V>;

    closed spec fn view(&self) -> Map<<K as View>::V, V> {
        Map::new(
            |k: <K as View>::V| exists|i: int| self.holds_at(k, i),
            |k: <K as View>::V| self.entries@[choose|i: int| self.holds_at(k, i)].1,
        )
    }
}

impl<K: TableKey, V> Table<K, V> {
    /// No key occurs twice.
    pub closed spec fn wf(&self) -> bool {
        forall|i: int, j: int|
            0 <= i < self.entries@.len() && 0 <= j < self.entries@.len() && i != j
                ==> (#[trigger] self.entries@[i]).0@ != (#[trigger] self.entries@[j]).0@
    }

    closed spec fn holds_at(&self, k: <K as View>::V, i: int) -> bool {
        0 <= i < self.entries@.len() && self.entries@[i].0@ == k
    }

    proof fn lemma_view_at(&self, i: int)
        requires
            self.wf(),
            0 <= i < self.entries@.len(),
        ensures
            self@.contains_key(self.entries@[i].0@),
            self@[self.entries@[i].0@] == self.entries@[i].1,
    {
        let k = self.entries@[i].0@;
        assert(self.holds_at(k, i));
        let j = choose|j: int| self.holds_at(k, j);
        assert(self.entries@[j].0@ == self.entries@[i].0@);
    }

    proof fn lemma_absent(&self, k: <K as View>::V)
        requires
            forall|i: int| 0 <= i < self.entries@.len() ==> (#[trigger] self.entries@[i]).0@ != k,
        ensures
            !self@.contains_key(k),
    {
    }

    pub fn new() -> (r: Table<K, V>)
        ensures
            r.wf(),
            r@ == Map::<<K as View>::V, V>::empty(),
    {
        let r = Table { entries: Vec::new() };
        assert(r@ =~= Map::<<K as View>::V, V>::empty());
        r
    }

    fn position(&self, k: &K) -> (r: Option<usize>)
        ensures
            match r {
                Some(i) => i < self.entries@.len() && self.entries@[i as int].0@ == k@,
                None => forall|i: int|
                    0 <= i < self.entries@.len() ==> (#[trigger] self.entries@[i]).0@ != k@,
            },
    {
        let mut i: usize = 0;
        while i < self.entries.len()
            invariant
                0 <= i <= self.entries@.len(),
                forall|j: int| 0 <= j < i ==> (#[trigger] self.entries@[j]).0@ != k@,
            decreases self.entries@.len() - i,
        {
            if self.entries[i].0.same_key(k) {
                return Some(i);
            }
            i = i + 1;
        }
        None
    }

    /// The value stored under `k`, if any.
    pub fn get(&self, k: &K) -> (r: Option<&V>)
        requires
            self.wf(),
        ensures
            match r {
                Some(v) => self@.contains_key(k@) && *v == self@[k@],
                None => !self@.contains_key(k@),
            },
    {
        match self.position(k) {
            Some(i) => {
                proof {
                    self.lemma_view_at(i as int);
                }
                Some(&self.entries[i].1)
            },
            None => {
                proof {
                    self.lemma_absent(k@);
                }
                None
            },
        }
    }

    /// Removes the entry under `k` and hands back its value.
    pub fn take(&mut self, k: &K) -> (r: Option<V>)
        requires
            old(self).wf(),
        ensures
            final(self).wf(),
            final(self)@ == old(self)@.remove(k@),
            match r {
                Some(v) => old(self)@.contains_key(k@) && v == old(self)@[k@],
                None => !old(self)@.contains_key(k@),
            },
    {
        match self.position(k) {
            Some(i) => {
                let ghost before = *self;
                proof {
                    before.lemma_view_at(i as int);
                }
                let (_, v) = self.entries.remove(i);
                proof {
                    let n = before.entries@.len() as int;
                    assert(forall|j: int|
                        0 <= j < n - 1 ==> #[trigger] self.entries@[j] == before.entries@[
                            if j < i { j } else { j + 1 }
                        ]);
                    assert forall|a: int, b: int|
                        0 <= a < self.entries@.len() && 0 <= b < self.entries@.len() && a != b
                            implies (#[trigger] self.entries@[a]).0@
                            != (#[trigger] self.entries@[b]).0@ by {
                        let a0 = if a < i { a } else { a + 1 };
                        let b0 = if b < i { b } else { b + 1 };
                        assert(self.entries@[a] == before.entries@[a0]);
                        assert(self.entries@[b] == before.entries@[b0]);
                    }
                    assert forall|key: <K as View>::V|
                        #[trigger] before@.remove(k@).contains_key(key) implies self@.contains_key(key)
                        && self@[key] == before@.remove(k@)[key] by {
                        let j0 = choose|j: int| before.holds_at(key, j);
                        before.lemma_view_at(j0);
                        assert(j0 != i);
                        let j = if j0 < i { j0 } else { j0 - 1 };
                        assert(self.entries@[j] == before.entries@[j0]);
                        self.lemma_view_at(j);
                    }
                    assert forall|key: <K as View>::V|
                        #[trigger] self@.contains_key(key) implies before@.remove(k@).contains_key(key) by {
                        let j = choose|j: int| self.holds_at(key, j);
                        let j0 = if j < i { j } else { j + 1 };
                        assert(self.entries@[j] == before.entries@[j0]);
                        before.lemma_view_at(j0);
                    }
                    assert(self@ =~= before@.remove(k@));
                }
                Some(v)
            },
            None => {
                proof {
                    self.lemma_absent(k@);
                    assert(self@ =~= self@.remove(k@));
                }
                None
            },
        }
    }

    /// Stores `v` under `k`, replacing what was there.
    pub fn set(&mut self, k: K, v: V)
        requires
            old(self).wf(),
        ensures
            final(self).wf(),
            final(self)@ == old(self)@.insert(k@, v),
    {
        let _ = self.take(&k);
        let ghost before = *self;
        proof {
            assert(!before@.contains_key(k@));
            assert forall|i: int| 0 <= i < before.entries@.len() implies (
            #[trigger] before.entries@[i]).0@ != k@ by {
                before.lemma_view_at(i);
            }
        }
        self.entries.push((k, v));
        proof {
            let n = before.entries@.len() as int;
            assert(forall|j: int| 0 <= j < n ==> #[trigger] self.entries@[j] == before.entries@[j]);
            assert(self.entries@[n].0@ == k@);
            self.lemma_view_at(n);
            assert forall|key: <K as View>::V|
                #[trigger] before@.insert(k@, v).contains_key(key) && key != k@ implies self@.contains_key(
                key) && self@[key] == before@[key] by {
                let j = choose|j: int| before.holds_at(key, j);
                before.lemma_view_at(j);
                self.lemma_view_at(j);
            }
            assert forall|key: <K as View>::V|
                #[trigger] self@.contains_key(key) implies before@.insert(k@, v).contains_key(key) by {
                let j = choose|j: int| self.holds_at(key, j);
                if j < n {
                    before.lemma_view_at(j);
                }
            }
            assert(self@ =~= before@.insert(k@, v));
        }
    }
}

} // verus!
