//! The account store: one ledger record per client, keyed by client id.

use std::collections::BTreeMap;

use vstd::prelude::*;

use crate::entities::account::Account;

verus! {

broadcast use vstd::laws_cmp::group_laws_cmp;

use vstd::std_specs::cmp::OrdSpec;
use vstd::std_specs::iter::IteratorSpec;
use vstd::std_specs::iter::VerusForLoopWrapper;

/// The listing `r` holds exactly the records of `m`, in ascending key
/// order.
pub open spec fn is_ascending_account_listing(m: Map<u16, Account>, r: Seq<Account>) -> bool {
    exists|ks: Seq<u16>|
        {
            &&& ks.no_duplicates()
            &&& ks.to_set() == m.dom()
            &&& (forall|i: int, j: int| 0 <= i < j < ks.len() ==> ks[i] < ks[j])
            &&& r == ks.map(|i: int, k: u16| m[k])
        }
}

/// What any account store offers the ledger engine: keyed upsert and
/// lookup, create-on-first-access, and an ordered listing.
pub trait AccountRepositoryTrait {
    /// The records currently stored, as a map from client id.
    spec fn repo_view(&self) -> Map<u16, Account>;

    /// Inserts or overwrites the record stored for `client_id`.
    fn update(&mut self, client_id: u16, account: Account)
        ensures
            final(self).repo_view() == old(self).repo_view().insert(client_id, account),
    ;

    /// Returns the stored record, or `None`; never creates one.
    fn find(&self, client_id: u16) -> (r: Option<&Account>)
        ensures
            match r {
                Some(account) => self.repo_view().contains_key(client_id) && *account
                    == self.repo_view()[client_id],
                None => !self.repo_view().contains_key(client_id),
            },
    ;

    /// Returns the stored record, or inserts and returns the default
    /// (zeroed, unlocked) account if the client is unknown.
    fn find_or_create(&mut self, client_id: u16) -> (r: Account)
        ensures
            r == if old(self).repo_view().contains_key(client_id) {
                old(self).repo_view()[client_id]
            } else {
                Account::spec_default_account(client_id)
            },
            final(self).repo_view() == old(self).repo_view().insert(client_id, r),
    ;

    /// Returns every stored record, in ascending client-id order.
    fn find_all(&self) -> (r: Vec<Account>)
        ensures
            is_ascending_account_listing(self.repo_view(), r@),
    ;
}

impl crate::repositories::in_memory::DefaultRecord<u16, Account> for Account {
    open spec fn default_spec(key: u16) -> Account {
        Account::spec_default_account(key)
    }

    fn default(key: u16) -> (r: Account) {
        Account::build_default_account(key)
    }
}

/// An account store held entirely in memory, in an ordered map.
pub struct AccountRepositoryInMemory {
    pub store: BTreeMap<u16, Account>,
}

impl AccountRepositoryInMemory {
    pub fn new() -> (r: AccountRepositoryInMemory)
        ensures
            r.repo_view() == Map::<u16, Account>::empty(),
    {
        AccountRepositoryInMemory { store: BTreeMap::new() }
    }

    /// The record stored for a client nobody has seen yet.
    pub fn default(key: u16) -> (r: Account)
        ensures
            r == Account::spec_default_account(key),
    {
        Account::build_default_account(key)
    }
}

impl AccountRepositoryTrait for AccountRepositoryInMemory {
    open spec fn repo_view(&self) -> Map<u16, Account> {
        self.store@
    }

    fn update(&mut self, client_id: u16, account: Account) {
        self.store.insert(client_id, account);
    }

    fn find(&self, client_id: u16) -> (r: Option<&Account>) {
        self.store.get(&client_id)
    }

    fn find_or_create(&mut self, client_id: u16) -> (r: Account) {
        let existing: Option<Account> = match self.store.get(&client_id) {
            Some(account) => Some(*account),
            None => None,
        };
        match existing {
            Some(account) => {
                proof {
                    assert(self.store@ =~= self.store@.insert(client_id, account));
                }
                account
            },
            None => {
                let account = Account::build_default_account(client_id);
                self.store.insert(client_id, account);
                account
            },
        }
    }

    fn find_all(&self) -> (r: Vec<Account>) {
        let mut elements: Vec<Account> = Vec::new();
        let mut it = VerusForLoopWrapper::new(self.store.values(), Ghost(None));
        loop
            invariant
                it.wf(),
                it.iter.decrease() is Some,
                elements@.len() == it.index(),
                forall|i: int| 0 <= i < it.index() ==> elements@[i] == *it.seq()[i],
                exists|ks: Seq<u16>|
                    {
                        &&& vstd::std_specs::btree::increasing_seq(ks)
                        &&& ks.to_set() == self.store@.dom()
                        &&& ks.no_duplicates()
                        &&& it.seq() == ks.map(|i: int, k: u16| &self.store@[k])
                    },
            ensures
                is_ascending_account_listing(self.store@, elements@),
            decreases it.iter.decrease()->0,
        {
            match it.next() {
                Some(value) => {
                    elements.push(*value);
                },
                None => {
                    proof {
                        let ks = choose|ks: Seq<u16>|
                            {
                                &&& vstd::std_specs::btree::increasing_seq(ks)
                                &&& ks.to_set() == self.store@.dom()
                                &&& ks.no_duplicates()
                                &&& it.seq() == ks.map(|i: int, k: u16| &self.store@[k])
                            };
                        vstd::std_specs::btree::axiom_increasing_seq_meaning::<u16>(ks);
                        assert(elements@ =~= ks.map(|i: int, k: u16| self.store@[k]));
                        assert forall|i: int, j: int| 0 <= i < j < ks.len() implies ks[i]
                            < ks[j] by {
                            assert(ks[i].cmp_spec(&ks[j]) is Less);
                        }
                    }
                    break ;
                },
            }
        }
        elements
    }
}

} // verus!
