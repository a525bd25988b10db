//! A generic keyed in-memory store: the shared shape behind the two
//! entity repositories, usable with any ordered, copyable key.

use std::collections::BTreeMap;

use vstd::prelude::*;

verus! {

broadcast use vstd::laws_cmp::group_laws_cmp;

use vstd::laws_cmp::obeys_cmp;
use vstd::std_specs::cmp::OrdSpec;
use vstd::std_specs::iter::IteratorSpec;
use vstd::std_specs::iter::VerusForLoopWrapper;

/// The listing `r` holds exactly the records of `m`, in ascending key
/// order (by the key type's comparison).
pub open spec fn is_ascending_listing<K: Ord, T>(m: Map<K, T>, r: Seq<T>) -> bool {
    exists|ks: Seq<K>|
        {
            &&& ks.no_duplicates()
            &&& ks.to_set() == m.dom()
            &&& (forall|i: int, j: int|
                0 <= i < j < ks.len() ==> ks[i].cmp_spec(&ks[j]) is Less)
            &&& r == ks.map(|i: int, k: K| m[k])
        }
}

/// Builds the record a keyed store hands out when a key is first
/// accessed.
pub trait DefaultRecord<K, T>: Sized {
    /// The default record for `key`.
    spec fn default_spec(key: K) -> T;

    fn default(key: K) -> (r: T)
        ensures
            r == Self::default_spec(key),
    ;
}

/// A keyed store: upsert, lookup, create-on-first-access, and an ordered
/// listing.
pub trait InMemoryDatabaseTrait<K: Ord, T: Copy> {
    /// The records currently stored, as a map from key.
    spec fn db_view(&self) -> Map<K, T>;

    /// Inserts or overwrites the record stored for `id`.
    fn update(&mut self, id: K, record: T)
        requires
            obeys_cmp::<K>(),
        ensures
            final(self).db_view() == old(self).db_view().insert(id, record),
    ;

    /// Returns the stored record, or `None`; never creates one.
    fn find(&self, id: K) -> (r: Option<&T>)
        requires
            obeys_cmp::<K>(),
        ensures
            match r {
                Some(record) => self.db_view().contains_key(id) && *record == self.db_view()[id],
                None => !self.db_view().contains_key(id),
            },
    ;

    /// Returns the stored record, or inserts and returns the default
    /// record for `id` if the key is unknown.
    fn find_or_create(&mut self, id: K) -> (r: T) where T: DefaultRecord<K, T>
        requires
            obeys_cmp::<K>(),
        ensures
            r == if old(self).db_view().contains_key(id) {
                old(self).db_view()[id]
            } else {
                T::default_spec(id)
            },
            final(self).db_view() == old(self).db_view().insert(id, r),
    ;

    /// Returns every stored record, in ascending key order.
    fn find_all(&self) -> (r: Vec<T>)
        requires
            obeys_cmp::<K>(),
        ensures
            is_ascending_listing(self.db_view(), r@),
    ;
}

/// A keyed store held entirely in memory, in an ordered map.
pub struct InMemoryDatabase<K, T> {
    pub store: BTreeMap<K, T>,
}

impl<K: Ord, T> InMemoryDatabase<K, T> {
    pub fn new() -> (r: InMemoryDatabase<K, T>)
        ensures
            r.store@ == Map::<K, T>::empty(),
    {
        InMemoryDatabase { store: BTreeMap::new() }
    }
}

impl<K: Ord + Copy, T: Copy> InMemoryDatabaseTrait<K, T> for InMemoryDatabase<K, T> {
    open spec fn db_view(&self) -> Map<K, T> {
        self.store@
    }

    fn update(&mut self, id: K, record: T) {
        self.store.insert(id, record);
    }

    fn find(&self, id: K) -> (r: Option<&T>) {
        self.store.get(&id)
    }

    fn find_or_create(&mut self, id: K) -> (r: T) where T: DefaultRecord<K, T> {
        let existing: Option<T> = match self.store.get(&id) {
            Some(record) => Some(*record),
            None => None,
        };
        match existing {
            Some(record) => {
                proof {
                    assert(self.store@ =~= self.store@.insert(id, record));
                }
                record
            },
            None => {
                let record = T::default(id);
                self.store.insert(id, record);
                record
            },
        }
    }

    fn find_all(&self) -> (r: Vec<T>) {
        let mut elements: Vec<T> = Vec::new();
        let mut it = VerusForLoopWrapper::new(self.store.values(), Ghost(None));
        loop
            invariant
                it.wf(),
                it.iter.decrease() is Some,
                elements@.len() == it.index(),
                forall|i: int| 0 <= i < it.index() ==> elements@[i] == *it.seq()[i],
                exists|ks: Seq<K>|
                    {
                        &&& vstd::std_specs::btree::increasing_seq(ks)
                        &&& ks.to_set() == self.store@.dom()
                        &&& ks.no_duplicates()
                        &&& it.seq() == ks.map(|i: int, k: K| &self.store@[k])
                    },
                obeys_cmp::<K>(),
            ensures
                is_ascending_listing(self.store@, elements@),
            decreases it.iter.decrease()->0,
        {
            match it.next() {
                Some(value) => {
                    elements.push(*value);
                },
                None => {
                    proof {
                        let ks = choose|ks: Seq<K>|
                            {
                                &&& vstd::std_specs::btree::increasing_seq(ks)
                                &&& ks.to_set() == self.store@.dom()
                                &&& ks.no_duplicates()
                                &&& it.seq() == ks.map(|i: int, k: K| &self.store@[k])
                            };
                        vstd::std_specs::btree::axiom_increasing_seq_meaning::<K>(ks);
                        assert(elements@ =~= ks.map(|i: int, k: K| self.store@[k]));
                    }
                    break ;
                },
            }
        }
        elements
    }
}

} // verus!
