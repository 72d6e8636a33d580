//! Key-value storage held as a list of entries with distinct keys.
use vstd::prelude::*;
use crate::types::AccountId;

verus! {

/// A key whose equality can be decided at run time.
pub trait TableKey: Sized {
    fn same_key(&self, other: &Self) -> (r: bool)
        ensures
            r == (*self == *other),
    ;
}

impl TableKey for AccountId {
    fn same_key(&self, other: &Self) -> (r: bool) {
        self.same_as(other)
    }
}

impl TableKey for (AccountId, AccountId) {
    fn same_key(&self, other: &Self) -> (r: bool) {
        self.0.same_as(&other.0) && self.1.same_as(&other.1)
    }
}

/// A finite map from keys to values, stored as entries with distinct keys.
#[verifier::reject_recursive_types(K)]
pub struct Table<K, V: View> {
    entries: Vec<(K, V)>,
    contents: Ghost<Map<K, V::V>>,
}

impl<K: TableKey, V: View> View for Table<K, V> {
    type V = Map<K, V::V>;

    closed spec fn view(&self) -> Map<K, V::V> {
        self.contents@
    }
}

impl<K: TableKey, V: View> Table<K, V> {
    /// The entries hold exactly the map's pairs, each key once.
    pub closed spec fn wf(&self) -> bool {
        &&& forall|i: int|
            0 <= i < self.entries.len() ==> {
                &&& #[trigger] self.contents@.contains_key(self.entries@[i].0)
                &&& self.contents@[self.entries@[i].0] == self.entries@[i].1@
            }
        &&& forall|k: K|
            #[trigger] self.contents@.contains_key(k) ==> exists|i: int|
                0 <= i < self.entries.len() && self.entries@[i].0 == k
        &&& forall|i: int, j: int|
            0 <= i < self.entries.len() && 0 <= j < self.entries.len() && i != j
                ==> self.entries@[i].0 != self.entries@[j].0
    }

    pub fn new() -> (t: Self)
        ensures
            t.wf(),
            t@ == Map::<K, V::V>::empty(),
    {
        Table { entries: Vec::new(), contents: Ghost(Map::empty()) }
    }

    /// The position of `key` among the entries, if it is there.
    fn position(&self, key: &K) -> (r: Option<usize>)
        requires
            self.wf(),
        ensures
            match r {
                Some(i) => i < self.entries.len() && self.entries@[i as int].0 == *key,
                None => !self@.contains_key(*key),
            },
    {
        let mut i: usize = 0;
        while i < self.entries.len()
            invariant
                self.wf(),
                i <= self.entries.len(),
                forall|j: int| 0 <= j < i ==> self.entries@[j].0 != *key,
            decreases self.entries.len() - i,
        {
            if self.entries[i].0.same_key(key) {
                return Some(i);
            }
            i = i + 1;
        }
        proof {
            if self@.contains_key(*key) {
                let j = choose|j: int| 0 <= j < self.entries.len() && self.entries@[j].0 == *key;
                assert(self.entries@[j].0 != *key);
            }
        }
        None
    }

    /// The value stored under `key`, if any.
    pub fn get(&self, key: &K) -> (r: Option<&V>)
        requires
            self.wf(),
        ensures
            match r {
                Some(v) => self@.contains_key(*key) && v@ == self@[*key],
                None => !self@.contains_key(*key),
            },
    {
        match self.position(key) {
            Some(i) => {
                assert(self@.contains_key(self.entries@[i as int].0));
                Some(&self.entries[i].1)
            },
            None => None,
        }
    }

    /// Whether a value is stored under `key`.
    pub fn contains_key(&self, key: &K) -> (r: bool)
        requires
            self.wf(),
        ensures
            r == self@.contains_key(*key),
    {
        match self.position(key) {
            Some(i) => {
                assert(self@.contains_key(self.entries@[i as int].0));
                true
            },
            None => false,
        }
    }

    /// Stores `value` under `key`, replacing what was there.
    pub fn insert(&mut self, key: K, value: V)
        requires
            old(self).wf(),
        ensures
            final(self).wf(),
            final(self)@ == old(self)@.insert(key, value@),
    {
        let ghost new_contents = self.contents@.insert(key, value@);
        match self.position(&key) {
            Some(i) => {
                self.entries[i] = (key, value);
            },
            None => {
                self.entries.push((key, value));
            },
        }
        self.contents = Ghost(new_contents);
        assert forall|k: K| #[trigger] self.contents@.contains_key(k) implies exists|i: int|
            0 <= i < self.entries.len() && self.entries@[i].0 == k by {
            if k != key {
                assert(old(self).contents@.contains_key(k));
                let j = choose|j: int| 0 <= j < old(self).entries.len() && old(self).entries@[j].0 == k;
                assert(self.entries@[j].0 == k);
            } else {
                let j = if self.entries.len() > old(self).entries.len() {
                    old(self).entries.len() as int
                } else {
                    choose|j: int| 0 <= j < self.entries.len() && self.entries@[j].0 == key
                };
                assert(self.entries@[j].0 == k);
            }
        }
    }
}

} // verus!
