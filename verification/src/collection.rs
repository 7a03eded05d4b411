use vstd::prelude::*;
use vstd::map::*;
use vstd::pervasive::VecAdditionalExecFns;
use vstd::assert_sets_equal;
use crate::error::CallError;

verus! {

/// One keyed entry: a unique textual key bundled with its ordered list of
/// text items. This is the structured argument a put accepts.
#[derive(Debug)]
pub struct CollectionEntry {
    pub key: String,
    pub items: Vec<String>,
}

/// A mapping from unique textual keys to ordered lists of text items.
///
/// Entries are held in first-insertion order; overwriting a key keeps its
/// position. The abstract value (the view) is the map from each key to its
/// item sequence.
pub struct KeyedCollectionStore {
    entries: Vec<(String, Vec<String>)>,
}

impl View for KeyedCollectionStore {
    type V = Map<Seq<char>, Seq<Seq<char>>>;

    closed spec fn view(&self) -> Map<Seq<char>, Seq<Seq<char>>> {
        Map::new(|k: Seq<char>| self.has_key(k), |k: Seq<char>| self.value_of(k))
    }
}

impl KeyedCollectionStore {
    /// The stored keys, in storage order.
    pub closed spec fn key_seq(&self) -> Seq<Seq<char>> {
        self.entries@.map_values(|e: (String, Vec<String>)| e.0@)
    }

    closed spec fn has_key(&self, k: Seq<char>) -> bool {
        exists|i: int| 0 <= i < self.entries@.len() && self.entries@[i].0@ == k
    }

    closed spec fn value_of(&self, k: Seq<char>) -> Seq<Seq<char>> {
        let i = choose|i: int| 0 <= i < self.entries@.len() && self.entries@[i].0@ == k;
        self.entries@[i].1.deep_view()
    }

    /// The store's invariant: keys are unique within the collection.
    pub closed spec fn wf(&self) -> bool {
        forall|i: int, j: int|
            0 <= i < j < self.entries@.len() ==> self.entries@[i].0@ != self.entries@[j].0@
    }

    /// With unique keys, the entry at any index holding `k` is the one the
    /// view maps `k` to.
    proof fn lemma_value_at(&self, k: Seq<char>, i: int)
        requires
            self.wf(),
            0 <= i < self.entries@.len(),
            self.entries@[i].0@ == k,
        ensures
            self@.contains_key(k),
            self@[k] == self.entries@[i].1.deep_view(),
    {
        assert(self.has_key(k));
        let j = choose|j: int| 0 <= j < self.entries@.len() && self.entries@[j].0@ == k;
        if i < j {
            assert(self.entries@[i].0@ != self.entries@[j].0@);
        }
        if j < i {
            assert(self.entries@[j].0@ != self.entries@[i].0@);
        }
        assert(j == i);
    }

    /// A fresh store holds no entries.
    pub fn new() -> (s: Self)
        ensures
            s.wf(),
            s@ == Map::<Seq<char>, Seq<Seq<char>>>::empty(),
    {
        let s = KeyedCollectionStore { entries: Vec::new() };
        proof {
            assert(s@ =~= Map::<Seq<char>, Seq<Seq<char>>>::empty());
        }
        s
    }

    /// Insert the entry if the key is absent, or fully replace the existing
    /// item sequence for the key if present (no merge). Always succeeds.
    pub fn put(&mut self, key: String, items: Vec<String>)
        requires
            old(self).wf(),
        ensures
            final(self).wf(),
            final(self)@ == old(self)@.insert(key@, items.deep_view()),
    {
        let ghost s0 = *self;
        let ghost k = key@;
        let ghost v = items.deep_view();
        let mut i: usize = 0;
        while i < self.entries.len()
            invariant
                0 <= i <= self.entries@.len(),
                *self == s0,
                s0 == *old(self),
                s0.wf(),
                k == key@,
                v == items.deep_view(),
                forall|j: int| 0 <= j < i ==> self.entries@[j].0@ != k,
            decreases self.entries@.len() - i,
        {
            if self.entries[i].0 == key {
                self.entries.set(i, (key, items));
                proof {
                    let es = self.entries@;
                    let old_es = s0.entries@;
                    assert(es.len() == old_es.len());
                    assert(es[i as int].0@ == k);
                    assert(es[i as int].1.deep_view() == v);
                    assert(forall|j: int| 0 <= j < es.len() && j != i ==> es[j] == old_es[j]);
                    assert(self.wf());
                    assert_maps_equal!(self@, s0@.insert(k, v), kk => {
                        if kk == k {
                            self.lemma_value_at(kk, i as int);
                        } else {
                            if s0.has_key(kk) {
                                let j = choose|j: int|
                                    0 <= j < old_es.len() && old_es[j].0@ == kk;
                                assert(es[j].0@ == kk);
                                s0.lemma_value_at(kk, j);
                                self.lemma_value_at(kk, j);
                            }
                            if self.has_key(kk) {
                                let j = choose|j: int|
                                    0 <= j < es.len() && es[j].0@ == kk;
                                assert(j != i);
                                assert(old_es[j].0@ == kk);
                            }
                        }
                    });
                }
                return;
            }
            i += 1;
        }
        self.entries.push((key, items));
        proof {
            let es = self.entries@;
            let old_es = s0.entries@;
            assert(es.len() == old_es.len() + 1);
            assert(es[es.len() - 1].0@ == k);
            assert(es[es.len() - 1].1.deep_view() == v);
            assert(forall|j: int| 0 <= j < old_es.len() ==> es[j] == old_es[j]);
            assert(forall|j: int| 0 <= j < old_es.len() ==> old_es[j].0@ != k);
            assert(self.wf());
            assert_maps_equal!(self@, s0@.insert(k, v), kk => {
                if kk == k {
                    self.lemma_value_at(kk, es.len() - 1);
                } else {
                    if s0.has_key(kk) {
                        let j = choose|j: int| 0 <= j < old_es.len() && old_es[j].0@ == kk;
                        assert(es[j].0@ == kk);
                        s0.lemma_value_at(kk, j);
                        self.lemma_value_at(kk, j);
                    }
                    if self.has_key(kk) {
                        let j = choose|j: int| 0 <= j < es.len() && es[j].0@ == kk;
                        assert(j != es.len() - 1);
                        assert(old_es[j].0@ == kk);
                    }
                }
            });
        }
    }

    /// Read the item sequence stored for `key`. Fails with `NotFound` — and
    /// only then — when the key is absent; the caller gets no partial result.
    pub fn get_items(&self, key: &String) -> (r: Result<Vec<String>, CallError>)
        requires
            self.wf(),
        ensures
            (r is Ok <==> self@.contains_key(key@)),
            (r matches Ok(items) ==> items.deep_view() == self@[key@]),
            (r is Err ==> r == Err::<Vec<String>, CallError>(CallError::NotFound)),
    {
        let mut i: usize = 0;
        while i < self.entries.len()
            invariant
                0 <= i <= self.entries@.len(),
                self.wf(),
                forall|j: int| 0 <= j < i ==> self.entries@[j].0@ != key@,
            decreases self.entries@.len() - i,
        {
            if self.entries[i].0 == *key {
                let items = clone_items(&self.entries[i].1);
                proof {
                    self.lemma_value_at(key@, i as int);
                }
                return Ok(items);
            }
            i += 1;
        }
        proof {
            assert(!self.has_key(key@));
        }
        Err(CallError::NotFound)
    }

    /// List all stored keys, in first-insertion order: no duplicates, and as
    /// a set exactly the domain of the store's map.
    pub fn list_keys(&self) -> (r: Vec<String>)
        requires
            self.wf(),
        ensures
            r.deep_view() == self.key_seq(),
            r.deep_view().no_duplicates(),
            r.deep_view().to_set() == self@.dom(),
            r@.len() == self@.dom().len(),
    {
        let mut r: Vec<String> = Vec::new();
        let mut i: usize = 0;
        while i < self.entries.len()
            invariant
                0 <= i <= self.entries@.len(),
                self.wf(),
                r@.len() == i,
                forall|j: int| 0 <= j < i ==> r@[j] == self.entries@[j].0,
            decreases self.entries@.len() - i,
        {
            r.push(self.entries[i].0.clone());
            i += 1;
        }
        proof {
            let ks = self.key_seq();
            assert(r.deep_view() =~= ks);
            assert forall|a: int, b: int|
                (0 <= a < ks.len() && 0 <= b < ks.len() && a != b) implies ks[a] != ks[b] by {
                if a < b {
                    assert(self.entries@[a].0@ != self.entries@[b].0@);
                } else {
                    assert(self.entries@[b].0@ != self.entries@[a].0@);
                }
            }
            assert(ks.no_duplicates());
            assert_sets_equal!(ks.to_set(), self@.dom(), kk => {
                if ks.to_set().contains(kk) {
                    let j = choose|j: int| 0 <= j < ks.len() && ks[j] == kk;
                    assert(self.entries@[j].0@ == kk);
                    self.lemma_value_at(kk, j);
                }
                if self@.dom().contains(kk) {
                    let j = choose|j: int|
                        0 <= j < self.entries@.len() && self.entries@[j].0@ == kk;
                    assert(ks[j] == kk);
                    assert(ks.contains(kk));
                }
            });
            ks.unique_seq_to_set();
        }
        r
    }
}

/// Clone an item sequence element by element; the copy has the same view.
fn clone_items(v: &Vec<String>) -> (r: Vec<String>)
    ensures
        r.deep_view() == v.deep_view(),
        r@.len() == v@.len(),
{
    let mut r: Vec<String> = Vec::new();
    let mut i: usize = 0;
    while i < v.len()
        invariant
            0 <= i <= v@.len(),
            r@.len() == i,
            forall|j: int| 0 <= j < i ==> r@[j] == v@[j],
        decreases v@.len() - i,
    {
        r.push(v[i].clone());
        i += 1;
    }
    proof {
        assert(r.deep_view() =~= v.deep_view());
    }
    r
}

} // verus!
