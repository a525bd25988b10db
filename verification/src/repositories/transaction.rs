//! The transaction store: one record per transaction id.

use std::collections::BTreeMap;

use vstd::prelude::*;

use crate::entities::transaction::Transaction;

pub use crate::entities::transaction::{
    transaction_state_decode, transaction_state_encode, transaction_type_decode,
    transaction_type_encode, TransactionState, TransactionType,
};

verus! {

broadcast use vstd::laws_cmp::group_laws_cmp;

use vstd::std_specs::cmp::OrdSpec;
use vstd::std_specs::iter::IteratorSpec;
use vstd::std_specs::iter::VerusForLoopWrapper;

/// The listing `r` holds exactly the records of `m`, in ascending key
/// order.
pub open spec fn is_ascending_transaction_listing(
    m: Map<u32, Transaction>,
    r: Seq<Transaction>,
) -> bool {
    exists|ks: Seq<u32>|
        {
            &&& ks.no_duplicates()
            &&& ks.to_set() == m.dom()
            &&& (forall|i: int, j: int| 0 <= i < j < ks.len() ==> ks[i] < ks[j])
            &&& r == ks.map(|i: int, k: u32| m[k])
        }
}

/// What any transaction store offers the ledger engine: keyed upsert and
/// lookup, and an ordered listing.
pub trait TransactionRepositoryTrait {
    /// The records currently stored, as a map from transaction id.
    spec fn repo_view(&self) -> Map<u32, Transaction>;

    /// Inserts or overwrites the record stored for `tx_id`.
    fn update(&mut self, tx_id: u32, transaction: Transaction)
        ensures
            final(self).repo_view() == old(self).repo_view().insert(tx_id, transaction),
    ;

    /// Returns the stored record, or `None`; never creates one.
    fn find(&self, tx_id: u32) -> (r: Option<&Transaction>)
        ensures
            match r {
                Some(transaction) => self.repo_view().contains_key(tx_id) && *transaction
                    == self.repo_view()[tx_id],
                None => !self.repo_view().contains_key(tx_id),
            },
    ;

    /// Returns every stored record, in ascending transaction-id order.
    fn find_all(&self) -> (r: Vec<Transaction>)
        ensures
            is_ascending_transaction_listing(self.repo_view(), r@),
    ;
}

/// A transaction store held entirely in memory, in an ordered map.
pub struct TransactionRepositoryInMemory {
    pub store: BTreeMap<u32, Transaction>,
}

impl TransactionRepositoryInMemory {
    pub fn new() -> (r: TransactionRepositoryInMemory)
        ensures
            r.repo_view() == Map::<u32, Transaction>::empty(),
    {
        TransactionRepositoryInMemory { store: BTreeMap::new() }
    }
}

impl TransactionRepositoryTrait for TransactionRepositoryInMemory {
    open spec fn repo_view(&self) -> Map<u32, Transaction> {
        self.store@
    }

    fn update(&mut self, tx_id: u32, transaction: Transaction) {
        self.store.insert(tx_id, transaction);
    }

    fn find(&self, tx_id: u32) -> (r: Option<&Transaction>) {
        self.store.get(&tx_id)
    }

    fn find_all(&self) -> (r: Vec<Transaction>) {
        let mut elements: Vec<Transaction> = Vec::new();
        let mut it = VerusForLoopWrapper::new(self.store.values(), Ghost(None));
        loop
            invariant
                it.wf(),
                it.iter.decrease() is Some,
                elements@.len() == it.index(),
                forall|i: int| 0 <= i < it.index() ==> elements@[i] == *it.seq()[i],
                exists|ks: Seq<u32>|
                    {
                        &&& vstd::std_specs::btree::increasing_seq(ks)
                        &&& ks.to_set() == self.store@.dom()
                        &&& ks.no_duplicates()
                        &&& it.seq() == ks.map(|i: int, k: u32| &self.store@[k])
                    },
            ensures
                is_ascending_transaction_listing(self.store@, elements@),
            decreases it.iter.decrease()->0,
        {
            match it.next() {
                Some(value) => {
                    elements.push(*value);
                },
                None => {
                    proof {
                        let ks = choose|ks: Seq<u32>|
                            {
                                &&& vstd::std_specs::btree::increasing_seq(ks)
                                &&& ks.to_set() == self.store@.dom()
                                &&& ks.no_duplicates()
                                &&& it.seq() == ks.map(|i: int, k: u32| &self.store@[k])
                            };
                        vstd::std_specs::btree::axiom_increasing_seq_meaning::<u32>(ks);
                        assert(elements@ =~= ks.map(|i: int, k: u32| self.store@[k]));
                        assert forall|i: int, j: int| 0 <= i < j < ks.len() implies ks[i]
                            < ks[j] by {
                            assert(ks[i].cmp_spec(&ks[j]) is Less);
                        }
                    }
                    break ;
                },
            }
        }
        elements
    }
}

} // verus!
