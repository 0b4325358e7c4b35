use vstd::prelude::*;

verus! {

/// Association table keyed by opaque 64-bit ids.
///
/// Every shared, render-world-scoped collection of this library (assets,
/// tasks, buffer sets, bind groups, mesh registry) is one of these tables:
/// the table is the sole owner of the per-id records, and the rest of the
/// system holds only the keys.  The table keeps at most one entry per key,
/// and keeps keys in insertion order, so that per-frame walks over it are
/// deterministic.
pub struct AssetTable<V> {
    entries: Vec<(u64, V)>,
}

impl<V> AssetTable<V> {
    /// The keys, in insertion order.
    pub closed spec fn key_seq(&self) -> Seq<u64> {
        self.entries@.map_values(|e: (u64, V)| e.0)
    }

    /// The entries, in insertion order.
    pub closed spec fn entry_seq(&self) -> Seq<(u64, V)> {
        self.entries@
    }

    /// Well-formed: at most one entry per key.
    pub open spec fn wf(&self) -> bool {
        forall|i: int, j: int|
            0 <= i < j < self.key_seq().len() ==> self.key_seq()[i] != self.key_seq()[j]
    }

    /// Index of the entry holding `k`, if any.
    pub open spec fn spec_index_of(&self, k: u64) -> int {
        choose|i: int| 0 <= i < self.key_seq().len() && self.key_seq()[i] == k
    }

    /// `k` is among the first `i` keys in walk order.
    pub open spec fn key_in_prefix(&self, k: u64, i: int) -> bool {
        exists|j: int| 0 <= j < i && #[trigger] self.key_seq()[j] == k
    }

    /// Extending the walked prefix by one key extends its content by that
    /// key.
    pub proof fn lemma_prefix_step(&self, i: int)
        requires
            0 <= i < self.key_seq().len(),
        ensures
            forall|k: u64| #[trigger] self.key_in_prefix(k, i + 1)
                <==> self.key_in_prefix(k, i) || self.key_seq()[i] == k,
    {
        assert forall|k: u64| #[trigger] self.key_in_prefix(k, i + 1) implies self.key_in_prefix(
            k,
            i,
        ) || self.key_seq()[i] == k by {
            let j = choose|j: int| 0 <= j < i + 1 && #[trigger] self.key_seq()[j] == k;
            if j < i {
                assert(self.key_in_prefix(k, i));
            }
        }
        assert forall|k: u64| self.key_in_prefix(k, i) || self.key_seq()[i] == k implies
            #[trigger] self.key_in_prefix(k, i + 1) by {
            if self.key_in_prefix(k, i) {
                let j = choose|j: int| 0 <= j < i && #[trigger] self.key_seq()[j] == k;
                assert(self.key_seq()[j] == k);
            } else {
                assert(self.key_seq()[i] == k);
            }
        }
    }

    /// The whole walk covers exactly the map's domain.
    pub proof fn lemma_prefix_complete(&self)
        ensures
            forall|k: u64| #[trigger] self@.dom().contains(k) <==> self.key_in_prefix(
                k,
                self.key_seq().len() as int,
            ),
    {
        let n = self.key_seq().len() as int;
        assert forall|k: u64| #[trigger] self@.dom().contains(k) implies self.key_in_prefix(
            k,
            n,
        ) by {
            let j = choose|j: int|
                0 <= j < self.key_seq().len() && #[trigger] self.key_seq()[j] == k;
            assert(self.key_seq()[j] == k);
        }
        assert forall|k: u64| self.key_in_prefix(k, n) implies #[trigger] self@.dom().contains(
            k,
        ) by {
            let j = choose|j: int| 0 <= j < n && #[trigger] self.key_seq()[j] == k;
            assert(self.key_seq().contains(k));
        }
    }

    /// The map's domain is exactly the key sequence's content.
    pub proof fn lemma_dom(&self)
        ensures
            forall|k: u64| #[trigger] self@.dom().contains(k) <==> self.key_seq().contains(k),
    {
    }

    pub proof fn lemma_view_at(&self, i: int)
        requires
            self.wf(),
            0 <= i < self.key_seq().len(),
        ensures
            self@.dom().contains(self.key_seq()[i]),
            self@[self.key_seq()[i]] == self.entry_seq()[i].1,
    {
        let k = self.key_seq()[i];
        assert(self.key_seq().contains(k));
        let j = self.spec_index_of(k);
        assert(j == i);
    }

    /// Fresh, empty table.
    pub fn new() -> (r: Self)
        ensures
            r.wf(),
            r@ == Map::<u64, V>::empty(),
            r.key_seq() == Seq::<u64>::empty(),
    {
        let r = AssetTable { entries: Vec::new() };
        proof {
            assert(r@ =~= Map::<u64, V>::empty());
            assert(r.key_seq() =~= Seq::<u64>::empty());
        }
        r
    }

    pub fn len(&self) -> (r: usize)
        ensures
            r == self.key_seq().len(),
    {
        self.entries.len()
    }

    /// Index of the entry holding `k`, scanning from the front.
    fn find(&self, k: u64) -> (r: Option<usize>)
        requires
            self.wf(),
        ensures
            match r {
                Some(i) => i < self.key_seq().len() && self.key_seq()[i as int] == k,
                None => !self.key_seq().contains(k),
            },
    {
        let n = self.entries.len();
        let mut i: usize = 0;
        while i < n
            invariant
                n == self.key_seq().len(),
                i <= n,
                forall|j: int| 0 <= j < i ==> self.key_seq()[j] != k,
            decreases n - i,
        {
            if self.entries[i].0 == k {
                return Some(i);
            }
            i = i + 1;
        }
        None
    }

    pub fn contains(&self, k: u64) -> (r: bool)
        requires
            self.wf(),
        ensures
            r == self@.dom().contains(k),
    {
        self.find(k).is_some()
    }

    pub fn get(&self, k: u64) -> (r: Option<&V>)
        requires
            self.wf(),
        ensures
            match r {
                Some(v) => self@.dom().contains(k) && *v == self@[k],
                None => !self@.dom().contains(k),
            },
    {
        match self.find(k) {
            Some(i) => {
                proof {
                    self.lemma_view_at(i as int);
                }
                Some(&self.entries[i].1)
            },
            None => None,
        }
    }

    /// Insert `v` under `k`, replacing any prior record for `k` in place
    /// (the key keeps its position in the walk order).
    pub fn insert(&mut self, k: u64, v: V)
        requires
            old(self).wf(),
        ensures
            final(self).wf(),
            final(self)@ == old(self)@.insert(k, v),
            final(self).key_seq() == if old(self)@.dom().contains(k) {
                old(self).key_seq()
            } else {
                old(self).key_seq().push(k)
            },
    {
        match self.find(k) {
            Some(i) => {
                self.entries.set(i, (k, v));
                proof {
                    assert(self.key_seq() =~= old(self).key_seq());
                    assert(old(self)@.dom().contains(k));
                    assert forall|q: u64| #[trigger] self.key_seq().contains(q) implies
                        old(self).key_seq().contains(q) by {
                        let x = choose|x: int|
                            0 <= x < self.key_seq().len() && self.key_seq()[x] == q;
                        assert(old(self).key_seq()[x] == q);
                    }
                    assert forall|q: u64| q != k && #[trigger] self@.dom().contains(q) implies
                        self@[q] == old(self)@[q] by {
                        let x = self.spec_index_of(q);
                        self.lemma_view_at(x);
                        old(self).lemma_view_at(x);
                    }
                    self.lemma_view_at(i as int);
                    assert(self@ =~= old(self)@.insert(k, v));
                }
            },
            None => {
                self.entries.push((k, v));
                proof {
                    assert(self.key_seq() =~= old(self).key_seq().push(k));
                    assert(!old(self)@.dom().contains(k));
                    assert forall|q: u64| q != k && #[trigger] self@.dom().contains(q) implies
                        old(self)@.dom().contains(q) && self@[q] == old(self)@[q] by {
                        let x = self.spec_index_of(q);
                        assert(old(self).key_seq()[x] == q);
                        self.lemma_view_at(x);
                        old(self).lemma_view_at(x);
                    }
                    assert forall|q: u64| q != k && #[trigger] old(self)@.dom().contains(q) implies
                        self@.dom().contains(q) by {
                        let x = old(self).spec_index_of(q);
                        assert(self.key_seq()[x] == q);
                    }
                    self.lemma_view_at(self.key_seq().len() - 1);
                    assert(self@ =~= old(self)@.insert(k, v));
                }
            },
        }
    }

    /// Remove the record for `k`, if any.
    pub fn remove(&mut self, k: u64)
        requires
            old(self).wf(),
        ensures
            final(self).wf(),
            final(self)@ == old(self)@.remove(k),
            final(self).key_seq() == old(self).key_seq().remove_value(k),
    {
        match self.find(k) {
            Some(i) => {
                self.entries.remove(i);
                proof {
                    let old_keys = old(self).key_seq();
                    assert(old_keys.index_of_first(k) == Some(i as int)) by {
                        old_keys.index_of_first_ensures(k);
                        if old_keys.index_of_first(k) is Some {
                            let f = old_keys.index_of_first(k).unwrap();
                            assert(old_keys[f] == k);
                            assert(f == i);
                        } else {
                            assert(old_keys.contains(k));
                        }
                    }
                    assert(self.key_seq() =~= old_keys.remove(i as int));
                    assert(old_keys.remove_value(k) == old_keys.remove(i as int));
                    assert forall|q: u64| q != k && #[trigger] old(self)@.dom().contains(q)
                        implies self@.dom().contains(q) && self@[q] == old(self)@[q] by {
                        let x = old(self).spec_index_of(q);
                        old(self).lemma_view_at(x);
                        let y: int = if x < i { x } else { x - 1 };
                        assert(self.key_seq()[y] == q);
                        assert(self.entry_seq()[y] == old(self).entry_seq()[x]);
                        self.lemma_view_at(y);
                    }
                    assert forall|q: u64| #[trigger] self@.dom().contains(q) implies
                        q != k && old(self)@.dom().contains(q) by {
                        let y = self.spec_index_of(q);
                        let x: int = if y < i { y } else { y + 1 };
                        assert(old(self).key_seq()[x] == q);
                    }
                    assert(self@ =~= old(self)@.remove(k));
                }
            },
            None => {
                proof {
                    assert(self@ =~= old(self)@.remove(k));
                    old(self).key_seq().index_of_first_ensures(k);
                    assert(self.key_seq() =~= old(self).key_seq().remove_value(k));
                }
            },
        }
    }

    /// Drop every record.
    pub fn clear(&mut self)
        ensures
            final(self).wf(),
            final(self)@ == Map::<u64, V>::empty(),
            final(self).key_seq() == Seq::<u64>::empty(),
    {
        self.entries.clear();
        proof {
            assert(self@ =~= Map::<u64, V>::empty());
            assert(self.key_seq() =~= Seq::<u64>::empty());
        }
    }

    /// Key of the `i`-th entry in walk order.
    pub fn key_at(&self, i: usize) -> (r: u64)
        requires
            self.wf(),
            i < self.key_seq().len(),
        ensures
            r == self.key_seq()[i as int],
            self@.dom().contains(r),
    {
        proof {
            self.lemma_view_at(i as int);
        }
        self.entries[i].0
    }

    /// Record of the `i`-th entry in walk order.
    pub fn val_at(&self, i: usize) -> (r: &V)
        requires
            self.wf(),
            i < self.key_seq().len(),
        ensures
            *r == self@[self.key_seq()[i as int]],
    {
        proof {
            self.lemma_view_at(i as int);
        }
        &self.entries[i].1
    }

    /// Replace the record of the `i`-th entry, keeping its key.
    pub fn set_val_at(&mut self, i: usize, v: V)
        requires
            old(self).wf(),
            i < old(self).key_seq().len(),
        ensures
            final(self).wf(),
            final(self).key_seq() == old(self).key_seq(),
            final(self)@ == old(self)@.insert(old(self).key_seq()[i as int], v),
    {
        let k = self.entries[i].0;
        self.entries.set(i, (k, v));
        proof {
            assert(self.key_seq() =~= old(self).key_seq());
            assert forall|q: u64| q != k && #[trigger] self@.dom().contains(q) implies
                self@[q] == old(self)@[q] by {
                let x = self.spec_index_of(q);
                self.lemma_view_at(x);
                old(self).lemma_view_at(x);
            }
            self.lemma_view_at(i as int);
            assert(self@ =~= old(self)@.insert(k, v));
        }
    }
}

impl<V> View for AssetTable<V> {
    type V = Map<u64, V>;

    /// The table as a map from key to record.
    closed spec fn view(&self) -> Map<u64, V> {
        Map::new(
            |k: u64| self.key_seq().contains(k),
            |k: u64| self.entry_seq()[self.spec_index_of(k)].1,
        )
    }
}

} // verus!
