//! A registry of records keyed by account identity, at most one per key.
use vstd::prelude::*;
use crate::address::Address;

verus! {

/// Records keyed by address. Its view is the map from each key to its record.
pub struct Table<V> {
    entries: Vec<(Address, V)>,
    contents: Ghost<Map<Address, V>>,
}

impl<V> Table<V> {
    /// Every entry is mirrored in the view, every key of the view has an
    /// entry, and no key has two.
    pub closed spec fn wf(self) -> bool {
        &&& forall|i: int|
            0 <= i < self.entries@.len() ==> {
                &&& #[trigger] self.contents@.contains_key(self.entries@[i].0)
                &&& self.contents@[self.entries@[i].0] == self.entries@[i].1
            }
        &&& forall|k: Address| #[trigger]
            self.contents@.contains_key(k) ==> exists|i: int|
                0 <= i < self.entries@.len() && #[trigger] self.entries@[i].0 == k
        &&& forall|i: int, j: int|
            0 <= i < j < self.entries@.len() ==> self.entries@[i].0 != self.entries@[j].0
    }

    pub closed spec fn view(&self) -> Map<Address, V> {
        self.contents@
    }
}

impl<V: Copy> Table<V> {
    /// An empty table.
    pub fn new() -> (r: Table<V>)
        ensures
            r.wf(),
            r@ == Map::<Address, V>::empty(),
    {
        Table { entries: Vec::new(), contents: Ghost(Map::empty()) }
    }

    /// The position of `key` among the entries, if present.
    fn position(&self, key: &Address) -> (r: Option<usize>)
        requires
            self.wf(),
        ensures
            match r {
                Some(i) => i < self.entries@.len() && self.entries@[i as int].0 == *key,
                None => !self@.contains_key(*key),
            },
    {
        let mut i: usize = 0;
        while i < self.entries.len()
            invariant
                0 <= i <= self.entries@.len(),
                forall|j: int| 0 <= j < i ==> self.entries@[j].0 != *key,
            decreases self.entries@.len() - i,
        {
            if self.entries[i].0.same_as(key) {
                return Some(i);
            }
            i = i + 1;
        }
        None
    }

    /// The record stored under `key`, if any.
    pub fn get(&self, key: &Address) -> (r: Option<V>)
        requires
            self.wf(),
        ensures
            r == (if self@.contains_key(*key) { Some(self@[*key]) } else { None }),
    {
        match self.position(key) {
            Some(i) => Some(self.entries[i].1),
            None => None,
        }
    }

    /// Stores `value` under `key`, replacing any record that was there.
    pub fn insert(&mut self, key: Address, value: V)
        requires
            old(self).wf(),
        ensures
            final(self).wf(),
            final(self)@ == old(self)@.insert(key, value),
    {
        let ghost at: int;
        match self.position(&key) {
            Some(i) => {
                self.entries.set(i, (key, value));
                proof {
                    at = i as int;
                }
            },
            None => {
                self.entries.push((key, value));
                proof {
                    at = self.entries@.len() - 1;
                }
            },
        }
        self.contents = Ghost(self.contents@.insert(key, value));
        assert(self.entries@[at].0 == key);
        assert forall|i: int| 0 <= i < self.entries@.len() && i != at implies {
            &&& self.entries@[i] == old(self).entries@[i]
            &&& self.entries@[i].0 != key
        } by {
            assert(old(self).contents@.contains_key(old(self).entries@[i].0));
        }
        assert forall|i: int|
            0 <= i < self.entries@.len() implies {
                &&& #[trigger] self.contents@.contains_key(self.entries@[i].0)
                &&& self.contents@[self.entries@[i].0] == self.entries@[i].1
            } by {
            if i != at {
                assert(old(self).contents@.contains_key(old(self).entries@[i].0));
            }
        }
        assert forall|i: int, j: int|
            0 <= i < j < self.entries@.len() implies self.entries@[i].0 != self.entries@[j].0 by {
            if i != at && j != at {
                assert(old(self).entries@[i].0 != old(self).entries@[j].0);
            }
        }
        assert forall|k: Address| #[trigger]
            self.contents@.contains_key(k) implies exists|i: int|
                0 <= i < self.entries@.len() && #[trigger] self.entries@[i].0 == k by {
            if k != key {
                let i = choose|i: int|
                    0 <= i < old(self).entries@.len() && #[trigger] old(self).entries@[i].0 == k;
                assert(self.entries@[i].0 == k);
            }
        }
    }
}

} // verus!
