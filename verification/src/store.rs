//! A keyed store of records.
//!
//! A store keeps records of one kind, each under a key of its own. Keys
//! are compared by their views, and the view of a store is the map from
//! the views of its keys to its records.

use vstd::prelude::*;
use crate::identity::{same_identity, Identity};

verus! {

/// A type whose values can serve as keys of a store.
pub trait StoreKey: View + Sized {
    /// Tests whether two keys are the same key.
    fn same_key(&self, other: &Self) -> (r: bool)
        ensures
            r == (self@ == other@),
    ;
}

impl StoreKey for Identity {
    fn same_key(&self, other: &Self) -> (r: bool) {
        same_identity(self, other)
    }
}

impl StoreKey for u64 {
    fn same_key(&self, other: &Self) -> (r: bool) {
        *self == *other
    }
}

impl StoreKey for String {
    fn same_key(&self, other: &Self) -> (r: bool) {
        *self == *other
    }
}

/// The key of a record that belongs to a user and a promotion.
#[derive(Clone, Copy, Debug, PartialEq, Eq)]
pub struct PairKey {
    /// The user.
    pub user: Identity,
    /// The address of the promotion.
    pub promotion: Identity,
}

impl View for PairKey {
    type V = (Seq<u8>, Seq<u8>);

    open spec fn view(&self) -> (Seq<u8>, Seq<u8>) {
        (self.user@, self.promotion@)
    }
}

impl StoreKey for PairKey {
    fn same_key(&self, other: &Self) -> (r: bool) {
        self.user.same_key(&other.user) && self.promotion.same_key(&other.promotion)
    }
}

/// Records of one kind, each kept under a key of its own.
#[derive(Clone, Debug)]
pub struct Store<K, T> {
    /// The keys in use, in the order in which they were taken.
    pub keys: Vec<K>,
    /// The records, each at the position of its key.
    pub values: Vec<T>,
}

impl<K: StoreKey, T> View for Store<K, T> {
    type V = Map<K::V, T>;

    /// The records by the views of their keys.
    open spec fn view(&self) -> Map<K::V, T> {
        Map::new(
            |key: K::V| self.key_views().contains(key),
            |key: K::V| self.values@[self.key_views().index_of(key)],
        )
    }
}

impl<K: StoreKey, T> Store<K, T> {
    /// The views of the keys, in the order of the keys.
    pub open spec fn key_views(&self) -> Seq<K::V> {
        self.keys@.map_values(|key: K| key@)
    }

    /// Every key has one record and occurs once.
    pub open spec fn wf(&self) -> bool {
        &&& self.keys@.len() == self.values@.len()
        &&& self.key_views().no_duplicates()
    }

    /// A store without records.
    pub fn new() -> (store: Store<K, T>)
        ensures
            store.wf(),
            store@ == Map::<K::V, T>::empty(),
            store.keys@.len() == 0,
            store.values@.len() == 0,
    {
        let store = Store { keys: Vec::new(), values: Vec::new() };
        store
    }

    /// The number of records.
    pub fn len(&self) -> (n: usize)
        ensures
            n == self.keys@.len(),
    {
        self.keys.len()
    }

    /// The position of the record kept under `key`, if there is one.
    pub fn find(&self, key: &K) -> (found: Option<usize>)
        requires
            self.wf(),
        ensures
            match found {
                Some(i) => {
                    &&& i < self.keys@.len()
                    &&& self.keys@[i as int]@ == key@
                    &&& self@.contains_key(key@)
                    &&& self@[key@] == self.values@[i as int]
                },
                None => !self@.contains_key(key@),
            },
    {
        let mut i: usize = 0;
        while i < self.keys.len()
            invariant
                self.wf(),
                i <= self.keys@.len(),
                forall|j: int| 0 <= j < i ==> self.key_views()[j] != key@,
            decreases self.keys@.len() - i,
        {
            if self.keys[i].same_key(key) {
                proof {
                    self.lemma_position(i as int);
                }
                return Some(i);
            }
            i += 1;
        }
        None
    }

    /// Whether a record is kept under `key`.
    pub fn contains(&self, key: &K) -> (r: bool)
        requires
            self.wf(),
        ensures
            r == self@.contains_key(key@),
    {
        self.find(key).is_some()
    }

    /// The record kept under `key`, if there is one.
    pub fn get(&self, key: &K) -> (r: Option<&T>)
        requires
            self.wf(),
        ensures
            match r {
                Some(value) => self@.contains_key(key@) && *value == self@[key@],
                None => !self@.contains_key(key@),
            },
    {
        match self.find(key) {
            Some(i) => Some(&self.values[i]),
            None => None,
        }
    }

    /// Keeps `value` under the unused key `key`.
    pub fn insert(&mut self, key: K, value: T)
        requires
            old(self).wf(),
            !old(self)@.contains_key(key@),
        ensures
            final(self).wf(),
            final(self)@ == old(self)@.insert(key@, value),
            final(self).keys@ == old(self).keys@.push(key),
            final(self).values@ == old(self).values@.push(value),
    {
        self.keys.push(key);
        self.values.push(value);
        proof {
            let before = *old(self);
            let after = *self;
            let n = before.keys@.len() as int;
            assert(after.key_views() =~= before.key_views().push(key@));
            assert(after.key_views()[n] == key@);
            assert forall|k: K::V| #[trigger] after@.contains_key(k) == before@.insert(
                key@,
                value,
            ).contains_key(k) by {
                if k != key@ && before.key_views().contains(k) {
                    let i = before.key_views().index_of(k);
                    assert(after.key_views()[i] == k);
                }
            }
            assert forall|k: K::V| after@.contains_key(k) implies #[trigger] after@[k]
                == before@.insert(key@, value)[k] by {
                let i = after.key_views().index_of(k);
                if k != key@ {
                    assert(before.key_views()[i] == k);
                }
            }
        }
    }

    /// Puts `value` in the place of the record at position `i`.
    pub fn replace(&mut self, i: usize, value: T)
        requires
            old(self).wf(),
            i < old(self).keys@.len(),
        ensures
            final(self).wf(),
            final(self).keys@ == old(self).keys@,
            final(self).values@ == old(self).values@.update(i as int, value),
            final(self)@ == old(self)@.insert(old(self).keys@[i as int]@, value),
    {
        self.values.set(i, value);
        proof {
            old(self).lemma_replaced(*self, i as int);
        }
    }

    /// Takes the record at position `i` out and leaves `placeholder` in
    /// its place.
    pub fn lend(&mut self, i: usize, placeholder: T) -> (value: T)
        requires
            old(self).wf(),
            i < old(self).keys@.len(),
        ensures
            final(self).wf(),
            value == old(self).values@[i as int],
            final(self).keys@ == old(self).keys@,
            final(self).values@ == old(self).values@.update(i as int, placeholder),
    {
        let mut value = placeholder;
        core::mem::swap(&mut value, &mut self.values[i]);
        value
    }

    /// The key at position `i` leads to the record at position `i`.
    pub proof fn lemma_position(&self, i: int)
        requires
            self.wf(),
            0 <= i < self.keys@.len(),
        ensures
            self@.contains_key(self.keys@[i]@),
            self.key_views().index_of(self.keys@[i]@) == i,
            self@[self.keys@[i]@] == self.values@[i],
    {
        let key = self.keys@[i]@;
        assert(self.key_views()[i] == key);
    }

    /// A store that differs from this one in the record at position `i`
    /// alone holds the new record under the key at `i` and is otherwise
    /// the same.
    pub proof fn lemma_replaced(&self, after: Store<K, T>, i: int)
        requires
            self.wf(),
            0 <= i < self.keys@.len(),
            after.keys@ == self.keys@,
            after.values@.len() == self.values@.len(),
            forall|j: int|
                0 <= j < self.values@.len() && j != i ==> after.values@[j] == self.values@[j],
        ensures
            after.wf(),
            after@ == self@.insert(self.keys@[i]@, after.values@[i]),
    {
        self.lemma_position(i);
        assert forall|k: K::V| after@.contains_key(k) implies #[trigger] after@[k] == self@.insert(
            self.keys@[i]@,
            after.values@[i],
        )[k] by {
            let j = self.key_views().index_of(k);
            assert(self.key_views()[j] == k);
        }
    }

    /// A store with the same keys and records has the same view.
    pub proof fn lemma_same(&self, after: Store<K, T>)
        requires
            self.wf(),
            after.keys@ == self.keys@,
            after.values@ == self.values@,
        ensures
            after.wf(),
            after@ == self@,
    {
    }
}

} // verus!
