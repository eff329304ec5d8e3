//! A table keyed by worker identifier, each identifier at most once.
use vstd::prelude::*;

verus! {

/// The views of a sequence of identifiers.
pub open spec fn id_views(ids: Seq<String>) -> Seq<Seq<char>> {
    ids.map_values(|s: String| s@)
}

/// One pair of identifier and value.
#[derive(Debug)]
pub struct TableEntry<V> {
    pub id: String,
    pub value: V,
}

/// A finite map from identifier to value, kept as a vector of entries.
pub struct KeyedTable<V> {
    entries: Vec<TableEntry<V>>,
    contents: Ghost<Map<Seq<char>, V>>,
}

impl<V> View for KeyedTable<V> {
    type V = Map<Seq<char>, V>;

    closed spec fn view(&self) -> Map<Seq<char>, V> {
        self.contents@
    }
}

impl<V> KeyedTable<V> {
    /// The entries mirror the map exactly, each identifier once.
    pub closed spec fn wf(&self) -> bool {
        &&& forall|i: int|
            #![trigger self.entries@[i]]
            0 <= i < self.entries@.len() ==> self.contents@.contains_key(self.entries@[i].id@)
                && self.contents@[self.entries@[i].id@] == self.entries@[i].value
        &&& forall|k: Seq<char>|
            #![trigger self.contents@.contains_key(k)]
            self.contents@.contains_key(k) ==> exists|i: int|
                0 <= i < self.entries@.len() && #[trigger] self.entries@[i].id@ == k
        &&& forall|i: int, j: int|
            0 <= i < self.entries@.len() && 0 <= j < self.entries@.len() && i != j
                ==> #[trigger] self.entries@[i].id@ != #[trigger] self.entries@[j].id@
    }

    /// An empty cache.
    pub fn new() -> (r: KeyedTable<V>)
        ensures
            r.wf(),
            r@ == Map::<Seq<char>, V>::empty(),
    {
        KeyedTable { entries: Vec::new(), contents: Ghost(Map::empty()) }
    }

    fn position(&self, id: &String) -> (r: Option<usize>)
        requires
            self.wf(),
        ensures
            match r {
                Some(i) => i < self.entries@.len() && self.entries@[i as int].id@ == id@,
                None => !self@.contains_key(id@),
            },
    {
        let mut i: usize = 0;
        while i < self.entries.len()
            invariant
                self.wf(),
                i <= self.entries@.len(),
                forall|j: int| 0 <= j < i ==> #[trigger] self.entries@[j].id@ != id@,
            decreases self.entries@.len() - i,
        {
            if self.entries[i].id == *id {
                return Some(i);
            }
            i = i + 1;
        }
        None
    }

    /// The cached process id of `id`.
    pub fn get(&self, id: &String) -> (r: Option<&V>)
        requires
            self.wf(),
        ensures
            r is Some == self@.contains_key(id@),
            r is Some ==> *r->0 == self@[id@],
    {
        match self.position(id) {
            Some(i) => Some(&self.entries[i].value),
            None => None,
        }
    }

    /// Keeps `value` for `id`, replacing what was kept for it.
    pub fn insert(&mut self, id: String, value: V)
        requires
            old(self).wf(),
        ensures
            final(self).wf(),
            final(self)@ == old(self)@.insert(id@, value),
    {
        let ghost k = id@;
        match self.position(&id) {
            Some(i) => {
                self.entries[i].value = value;
                self.contents = Ghost(self.contents@.insert(k, value));
                assert forall|key: Seq<char>| #[trigger] self.contents@.contains_key(key) implies exists|j: int|
                    0 <= j < self.entries@.len() && #[trigger] self.entries@[j].id@ == key by {
                    if key != k {
                        assert(old(self).contents@.contains_key(key));
                        let j = choose|j: int|
                            0 <= j < old(self).entries@.len() && #[trigger] old(self).entries@[j].id@ == key;
                        assert(self.entries@[j].id@ == key);
                    } else {
                        assert(self.entries@[i as int].id@ == key);
                    }
                }
            },
            None => {
                self.entries.push(TableEntry { id, value });
                self.contents = Ghost(self.contents@.insert(k, value));
                let ghost n = self.entries@.len() - 1;
                assert(self.entries@[n].id@ == k);
                assert forall|key: Seq<char>| #[trigger] self.contents@.contains_key(key) implies exists|j: int|
                    0 <= j < self.entries@.len() && #[trigger] self.entries@[j].id@ == key by {
                    if key != k {
                        assert(old(self).contents@.contains_key(key));
                        let j = choose|j: int|
                            0 <= j < old(self).entries@.len() && #[trigger] old(self).entries@[j].id@ == key;
                        assert(self.entries@[j].id@ == key);
                    } else {
                        assert(self.entries@[n].id@ == key);
                    }
                }
            },
        }
    }

    /// Forgets `id`; the cached process id, if there was one, comes back.
    pub fn remove(&mut self, id: &String) -> (r: Option<V>)
        requires
            old(self).wf(),
        ensures
            final(self).wf(),
            final(self)@ == old(self)@.remove(id@),
            r == (if old(self)@.contains_key(id@) {
                Some(old(self)@[id@])
            } else {
                None::<V>
            }),
    {
        match self.position(id) {
            Some(i) => {
                let e = self.entries.remove(i);
                self.contents = Ghost(self.contents@.remove(id@));
                assert forall|key: Seq<char>| #[trigger] self.contents@.contains_key(key) implies exists|j: int|
                    0 <= j < self.entries@.len() && #[trigger] self.entries@[j].id@ == key by {
                    assert(old(self).contents@.contains_key(key));
                    let j = choose|j: int|
                        0 <= j < old(self).entries@.len() && #[trigger] old(self).entries@[j].id@ == key;
                    assert(j != i);
                    if j < i {
                        assert(self.entries@[j].id@ == key);
                    } else {
                        assert(self.entries@[j - 1].id@ == key);
                    }
                }
                assert forall|a: int, b: int|
                    0 <= a < self.entries@.len() && 0 <= b < self.entries@.len() && a != b
                    implies #[trigger] self.entries@[a].id@ != #[trigger] self.entries@[b].id@ by {
                    let oa = if a < i { a } else { a + 1 };
                    let ob = if b < i { b } else { b + 1 };
                    assert(self.entries@[a] == old(self).entries@[oa]);
                    assert(self.entries@[b] == old(self).entries@[ob]);
                }
                assert forall|a: int| 0 <= a < self.entries@.len() implies
                    self.contents@.contains_key(#[trigger] self.entries@[a].id@)
                    && self.contents@[self.entries@[a].id@] == self.entries@[a].value by {
                    let oa = if a < i { a } else { a + 1 };
                    assert(self.entries@[a] == old(self).entries@[oa]);
                    assert(old(self).entries@[oa].id@ != old(self).entries@[i as int].id@);
                }
                Some(e.value)
            },
            None => {
                assert(self.contents@.remove(id@) =~= self.contents@);
                None
            },
        }
    }

    /// Every identifier kept, each once.
    pub fn ids(&self) -> (r: Vec<String>)
        requires
            self.wf(),
        ensures
            id_views(r@).no_duplicates(),
            id_views(r@).to_set() == self@.dom(),
            r@.len() == self@.len(),
    {
        let mut r: Vec<String> = Vec::new();
        let mut i: usize = 0;
        while i < self.entries.len()
            invariant
                self.wf(),
                i <= self.entries@.len(),
                r@.len() == i,
                forall|j: int| 0 <= j < i ==> #[trigger] r@[j]@ == self.entries@[j].id@,
            decreases self.entries@.len() - i,
        {
            r.push(self.entries[i].id.clone());
            i = i + 1;
        }
        proof {
            self.lemma_len();
            let v = id_views(r@);
            assert forall|a: int, b: int| 0 <= a < v.len() && 0 <= b < v.len() && a != b implies v[a] != v[b] by {
                assert(self.entries@[a].id@ != self.entries@[b].id@);
            }
            assert forall|k: Seq<char>| v.to_set().contains(k) implies self@.dom().contains(k) by {
                let j = choose|j: int| 0 <= j < v.len() && v[j] == k;
                assert(self.entries@[j].id@ == k);
            }
            assert forall|k: Seq<char>| self@.dom().contains(k) implies v.to_set().contains(k) by {
                let j = choose|j: int| 0 <= j < self.entries@.len() && #[trigger] self.entries@[j].id@ == k;
                assert(v[j] == k);
            }
            assert(v.to_set() =~= self@.dom());
        }
        r
    }

    /// Number of identifiers kept.
    pub fn len(&self) -> (r: usize)
        requires
            self.wf(),
        ensures
            r as nat == self@.len(),
    {
        proof { self.lemma_len(); }
        self.entries.len()
    }

    proof fn lemma_len(&self)
        requires
            self.wf(),
        ensures
            self@.len() == self.entries@.len(),
    {
        let ids = Seq::new(self.entries@.len(), |i: int| self.entries@[i].id@);
        assert(self@.dom() =~= ids.to_set()) by {
            assert forall|k: Seq<char>| self@.dom().contains(k) implies ids.to_set().contains(k) by {
                let j = choose|j: int| 0 <= j < self.entries@.len() && #[trigger] self.entries@[j].id@ == k;
                assert(ids[j] == k);
            }
            assert forall|k: Seq<char>| ids.to_set().contains(k) implies self@.dom().contains(k) by {
                let j = choose|j: int| 0 <= j < ids.len() && ids[j] == k;
                assert(self.entries@[j].id@ == k);
            }
        }
        assert(ids.no_duplicates()) by {
            assert forall|a: int, b: int| 0 <= a < ids.len() && 0 <= b < ids.len() && a != b implies ids[a] != ids[b] by {
                assert(self.entries@[a].id@ != self.entries@[b].id@);
            }
        }
        ids.unique_seq_to_set();
    }
}

} // verus!
