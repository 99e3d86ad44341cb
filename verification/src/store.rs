//! A keyed store: the part of a contract's instance storage that one kind
//! of key addresses, held as a list of entries whose keys are distinct.

use vstd::prelude::*;

verus! {

/// A key that can be compared by its plain value.
pub trait StoreKey: View + Sized {
    fn same_key(&self, other: &Self) -> (same: bool)
        ensures
            same == (self@ == other@),
    ;
}

/// Entries keyed by `K`; its view is the map from each key's view to the
/// view of the value stored under it.
#[verifier::reject_recursive_types(K)]
#[verifier::reject_recursive_types(V)]
pub struct Store<K: StoreKey, V: View> {
    entries: Vec<(K, V)>,
    contents: Ghost<Map<K::V, V::V>>,
}

impl<K: StoreKey, V: View> View for Store<K, V> {
    type V = Map<K::V, V::V>;

    closed spec fn view(&self) -> Map<K::V, V::V> {
        self.contents@
    }
}

impl<K: StoreKey, V: View> Store<K, V> {
    /// The entries hold distinct keys, and the map holds exactly what they hold.
    pub closed spec fn wf(&self) -> bool {
        &&& forall|i: int, j: int|
            0 <= i < j < self.entries@.len() ==> #[trigger] self.entries@[i].0@
                != #[trigger] self.entries@[j].0@
        &&& forall|i: int|
            0 <= i < self.entries@.len() ==> {
                &&& self.contents@.contains_key(#[trigger] self.entries@[i].0@)
                &&& self.contents@[self.entries@[i].0@] == self.entries@[i].1@
            }
        &&& forall|k: K::V|
            #[trigger] self.contents@.contains_key(k) ==> exists|i: int|
                0 <= i < self.entries@.len() && #[trigger] self.entries@[i].0@ == k
    }

    /// An empty store.
    pub fn new() -> (s: Self)
        ensures
            s.wf(),
            s@ == Map::<K::V, V::V>::empty(),
    {
        Store { entries: Vec::new(), contents: Ghost(Map::empty()) }
    }

    /// The position of the entry whose key is `key`, if there is one.
    fn find(&self, key: &K) -> (r: Option<usize>)
        requires
            self.wf(),
        ensures
            match r {
                Some(i) => i < self.entries@.len() && self.entries@[i as int].0@ == key@,
                None => !self@.contains_key(key@),
            },
    {
        let n = self.entries.len();
        let mut i: usize = 0;
        while i < n
            invariant
                n == self.entries@.len(),
                i <= n,
                forall|j: int| 0 <= j < i ==> #[trigger] self.entries@[j].0@ != key@,
            decreases n - i,
        {
            if self.entries[i].0.same_key(key) {
                return Some(i);
            }
            i = i + 1;
        }
        None
    }

    /// The value stored under `key`, if any.
    pub fn get(&self, key: &K) -> (r: Option<&V>)
        requires
            self.wf(),
        ensures
            match r {
                Some(v) => self@.contains_key(key@) && self@[key@] == v@,
                None => !self@.contains_key(key@),
            },
    {
        match self.find(key) {
            Some(i) => Some(&self.entries[i].1),
            None => None,
        }
    }

    /// Stores `value` under `key`, replacing what was there.
    pub fn set(&mut self, key: K, value: V)
        requires
            old(self).wf(),
        ensures
            final(self).wf(),
            final(self)@ == old(self)@.insert(key@, value@),
    {
        let ghost k = key@;
        let ghost v = value@;
        let ghost old_entries = self.entries@;
        let ghost pos: int;
        match self.find(&key) {
            Some(i) => {
                self.entries.set(i, (key, value));
                proof {
                    pos = i as int;
                }
            },
            None => {
                self.entries.push((key, value));
                proof {
                    pos = old_entries.len() as int;
                }
            },
        }
        self.contents = Ghost(self.contents@.insert(k, v));
        assert(self.entries@[pos].0@ == k);
        assert forall|i: int| 0 <= i < self.entries@.len() && i != pos implies #[trigger] self.entries@[i]
            == old_entries[i] by {}
        assert forall|kk: K::V| #[trigger] self.contents@.contains_key(kk) implies exists|i: int|
            0 <= i < self.entries@.len() && #[trigger] self.entries@[i].0@ == kk by {
            if kk == k {
                assert(self.entries@[pos].0@ == kk);
            } else {
                let i = choose|i: int| 0 <= i < old_entries.len() && #[trigger] old_entries[i].0@ == kk;
                assert(self.entries@[i] == old_entries[i]);
            }
        }
    }

    /// Removes the entry stored under `key`, if there is one.
    pub fn remove(&mut self, key: &K)
        requires
            old(self).wf(),
        ensures
            final(self).wf(),
            final(self)@ == old(self)@.remove(key@),
    {
        let ghost old_entries = self.entries@;
        match self.find(key) {
            Some(i) => {
                let _ = self.entries.remove(i);
                proof {
                    assert forall|j: int| 0 <= j < self.entries@.len() implies #[trigger] self.entries@[j]
                        == (if j < i { old_entries[j] } else { old_entries[j + 1] }) by {}
                }
            },
            None => {},
        }
        self.contents = Ghost(self.contents@.remove(key@));
        assert forall|kk: K::V| #[trigger] self.contents@.contains_key(kk) implies exists|j: int|
            0 <= j < self.entries@.len() && #[trigger] self.entries@[j].0@ == kk by {
            let j = choose|j: int| 0 <= j < old_entries.len() && #[trigger] old_entries[j].0@ == kk;
            if self.entries@.len() == old_entries.len() {
                assert(self.entries@[j].0@ == kk);
            } else {
                let i = choose|i: int| 0 <= i < old_entries.len() && old_entries[i].0@ == key@;
                if j < i {
                    assert(self.entries@[j].0@ == kk);
                } else {
                    assert(j != i);
                    assert(self.entries@[j - 1].0@ == kk);
                }
            }
        }
    }
}

} // verus!
