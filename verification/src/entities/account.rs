//! A per-client ledger record.

use vstd::prelude::*;

verus! {

/// One client's ledger: withdrawable funds, funds frozen pending dispute
/// resolution, their sum, and whether the account has been permanently
/// frozen by a chargeback. All monetary fields are scaled integers (see
/// [`crate::fixed`]).
#[derive(Clone, Copy, Debug, PartialEq, Eq, Structural)]
pub struct Account {
    pub client_id: u16,
    pub available: i128,
    pub held: i128,
    pub total: i128,
    pub locked: bool,
}

impl Account {
    /// The funds invariant every stored account satisfies.
    pub open spec fn is_balanced(self) -> bool {
        self.total == self.available + self.held
    }

    /// The zero-valued, unlocked account a first deposit creates.
    pub open spec fn spec_default_account(client_id: u16) -> Account {
        Account { client_id, available: 0, held: 0, total: 0, locked: false }
    }

    pub fn new(client_id: u16, available: i128, held: i128, total: i128, locked: bool) -> (r:
        Account)
        ensures
            r == (Account { client_id, available, held, total, locked }),
    {
        Account { client_id, available, held, total, locked }
    }

    pub fn available(&self) -> (r: i128)
        ensures
            r == self.available,
    {
        self.available
    }

    /// Builds the account a previously unseen client starts with: all
    /// fields zero and unlocked.
    pub fn build_default_account(client_id: u16) -> (r: Account)
        ensures
            r == Account::spec_default_account(client_id),
    {
        Account { client_id, available: 0, held: 0, total: 0, locked: false }
    }
}

} // verus!
