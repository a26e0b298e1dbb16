//! Durable contract state: a set of approved code measurements and a map
//! from caller identity to its last-registered worker identity.
//!
//! Both are kept as vectors of entries with pairwise-distinct keys, so that
//! membership and lookup are plain verified loops; their mathematical values
//! are a `Set` of character sequences and a `Map` from character sequences
//! to [`WorkerView`] values.
use vstd::map::*;
use vstd::prelude::*;

use crate::Worker;
use crate::WorkerView;

verus! {

/// A set of code-measurement identifiers, with set semantics: no identifier
/// occurs twice.
pub struct CodehashSet {
    items: Vec<String>,
}

impl View for CodehashSet {
    type V = Set<Seq<char>>;

    closed spec fn view(&self) -> Set<Seq<char>> {
        Set::new(|k: Seq<char>| exists|i: int| 0 <= i < self.items@.len() && self.items@[i]@ == k)
    }
}

impl CodehashSet {
    /// No identifier is stored twice.
    pub closed spec fn wf(&self) -> bool {
        forall|i: int, j: int|
            0 <= i < j < self.items@.len() ==> self.items@[i]@ != self.items@[j]@
    }

    /// An empty set.
    pub fn new() -> (s: CodehashSet)
        ensures
            s.wf(),
            s@ == Set::<Seq<char>>::empty(),
    {
        let s = CodehashSet { items: Vec::new() };
        proof {
            assert(s@ =~= Set::<Seq<char>>::empty());
        }
        s
    }

    /// Whether `key` is a member of the set.
    pub fn contains(&self, key: &String) -> (r: bool)
        ensures
            r == self@.contains(key@),
    {
        let n = self.items.len();
        let mut i: usize = 0;
        while i < n
            invariant
                n == self.items@.len(),
                0 <= i <= n,
                forall|j: int| 0 <= j < i ==> self.items@[j]@ != key@,
            decreases n - i,
        {
            if self.items[i].eq(key) {
                return true;
            }
            i += 1;
        }
        false
    }

    /// Inserts `key`; a no-op if it is already a member.
    pub fn insert(&mut self, key: String)
        requires
            old(self).wf(),
        ensures
            final(self).wf(),
            final(self)@ == old(self)@.insert(key@),
    {
        if !self.contains(&key) {
            self.items.push(key);
            proof {
                let n = self.items@.len() - 1;
                assert(self.items@[n]@ == key@);
                assert forall|k: Seq<char>| old(self)@.contains(k) implies self@.contains(k) by {
                    let i = choose|i: int|
                        0 <= i < old(self).items@.len() && old(self).items@[i]@ == k;
                    assert(self.items@[i]@ == k);
                }
                assert forall|k: Seq<char>| self@.contains(k) && k != key@
                    implies old(self)@.contains(k) by {
                    let i = choose|i: int| 0 <= i < self.items@.len() && self.items@[i]@ == k;
                    assert(i != n);
                    assert(old(self).items@[i]@ == k);
                }
                assert(self@ =~= old(self)@.insert(key@));
            }
        } else {
            proof {
                assert(self@ =~= old(self)@.insert(key@));
            }
        }
    }
}

/// One registered worker identity, keyed by the identity of the caller that
/// registered it.
pub struct WorkerEntry {
    pub key: String,
    pub value: Worker,
}

/// A map from caller identity to its last-registered worker identity, with
/// map semantics: one entry per caller, last write wins.
pub struct WorkerTable {
    entries: Vec<WorkerEntry>,
}

impl WorkerTable {
    /// Whether some entry holds `key`.
    pub closed spec fn has_key(&self, key: Seq<char>) -> bool {
        exists|i: int| 0 <= i < self.entries@.len() && self.entries@[i].key@ == key
    }

    /// The worker identity stored under `key`.
    pub closed spec fn value_for(&self, key: Seq<char>) -> WorkerView {
        self.entries@[choose|i: int|
            0 <= i < self.entries@.len() && self.entries@[i].key@ == key].value@
    }

    /// No caller identity is stored twice.
    pub closed spec fn wf(&self) -> bool {
        forall|i: int, j: int|
            0 <= i < j < self.entries@.len() ==> self.entries@[i].key@ != self.entries@[j].key@
    }
}

impl View for WorkerTable {
    type V = Map<Seq<char>, WorkerView>;

    closed spec fn view(&self) -> Map<Seq<char>, WorkerView> {
        Map::new(|k: Seq<char>| self.has_key(k), |k: Seq<char>| self.value_for(k))
    }
}

impl WorkerTable {
    /// An empty map.
    pub fn new() -> (t: WorkerTable)
        ensures
            t.wf(),
            t@ == Map::<Seq<char>, WorkerView>::empty(),
    {
        let t = WorkerTable { entries: Vec::new() };
        proof {
            assert(t@ =~= Map::<Seq<char>, WorkerView>::empty());
        }
        t
    }

    /// The worker identity registered under `key`, if any.
    pub fn get(&self, key: &String) -> (r: Option<&Worker>)
        requires
            self.wf(),
        ensures
            match r {
                Some(w) => self@.contains_key(key@) && w@ == self@[key@],
                None => !self@.contains_key(key@),
            },
    {
        let n = self.entries.len();
        let mut i: usize = 0;
        while i < n
            invariant
                n == self.entries@.len(),
                0 <= i <= n,
                self.wf(),
                forall|j: int| 0 <= j < i ==> self.entries@[j].key@ != key@,
            decreases n - i,
        {
            if self.entries[i].key.eq(key) {
                proof {
                    self.lemma_value_at(i as int);
                }
                return Some(&self.entries[i].value);
            }
            i += 1;
        }
        None
    }

    /// With pairwise-distinct keys, the entry at `i` is the one its key
    /// maps to.
    proof fn lemma_value_at(&self, i: int)
        requires
            self.wf(),
            0 <= i < self.entries@.len(),
        ensures
            self@.contains_key(self.entries@[i].key@),
            self@[self.entries@[i].key@] == self.entries@[i].value@,
    {
        let key = self.entries@[i].key@;
        assert(forall|j: int|
            0 <= j < self.entries@.len() && self.entries@[j].key@ == key ==> j == i);
    }

    /// Stores `value` under `key`, replacing any prior entry for `key`.
    pub fn insert(&mut self, key: String, value: Worker)
        requires
            old(self).wf(),
        ensures
            final(self).wf(),
            final(self)@ == old(self)@.insert(key@, value@),
    {
        let n = self.entries.len();
        let mut i: usize = 0;
        while i < n
            invariant
                n == self.entries@.len(),
                0 <= i <= n,
                old(self).wf(),
                *self == *old(self),
                forall|j: int| 0 <= j < i ==> self.entries@[j].key@ != key@,
            decreases n - i,
        {
            if self.entries[i].key.eq(&key) {
                self.entries.set(i, WorkerEntry { key, value });
                proof {
                    self.lemma_replace_at(*old(self), i as int);
                }
                return;
            }
            i += 1;
        }
        self.entries.push(WorkerEntry { key, value });
        proof {
            let pushed = self.entries@.len() - 1;
            let key_v = self.entries@[pushed].key@;
            self.lemma_value_at(pushed);
            assert_maps_equal!(self@, old(self)@.insert(key_v, self.entries@[pushed].value@),
                k => {
                if k != key_v {
                    if old(self).has_key(k) {
                        let j = choose|j: int|
                            0 <= j < old(self).entries@.len() && old(self).entries@[j].key@ == k;
                        assert(self.entries@[j].key@ == k);
                        self.lemma_value_at(j);
                        old(self).lemma_value_at(j);
                    }
                    if self.has_key(k) {
                        let j = choose|j: int|
                            0 <= j < self.entries@.len() && self.entries@[j].key@ == k;
                        assert(j != pushed);
                        assert(old(self).entries@[j].key@ == k);
                    }
                }
            });
        }
    }

    /// Replacing the entry at `i` in place updates the map at its key
    /// alone.
    proof fn lemma_replace_at(&self, prior: WorkerTable, i: int)
        requires
            prior.wf(),
            0 <= i < prior.entries@.len(),
            self.entries@ == prior.entries@.update(i, self.entries@[i]),
            self.entries@[i].key@ == prior.entries@[i].key@,
        ensures
            self.wf(),
            self@ == prior@.insert(self.entries@[i].key@, self.entries@[i].value@),
    {
        let key = self.entries@[i].key@;
        assert forall|j: int, l: int| 0 <= j < l < self.entries@.len()
            implies self.entries@[j].key@ != self.entries@[l].key@ by {
            assert(prior.entries@[j].key@ != prior.entries@[l].key@);
        }
        self.lemma_value_at(i);
        assert_maps_equal!(self@, prior@.insert(key, self.entries@[i].value@), k => {
            if k != key {
                if prior.has_key(k) {
                    let j = choose|j: int|
                        0 <= j < prior.entries@.len() && prior.entries@[j].key@ == k;
                    assert(self.entries@[j].key@ == k);
                    self.lemma_value_at(j);
                    prior.lemma_value_at(j);
                }
                if self.has_key(k) {
                    let j = choose|j: int|
                        0 <= j < self.entries@.len() && self.entries@[j].key@ == k;
                    assert(j != i);
                    assert(prior.entries@[j].key@ == k);
                }
            }
        });
    }
}

} // verus!
