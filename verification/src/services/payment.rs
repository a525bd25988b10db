//! The payments ledger state machine.
//!
//! Each of the five operations (deposit, withdrawal, dispute, resolve,
//! chargeback) validates every precondition before mutating anything, so
//! a failure leaves both stores untouched. The intended behaviour of each
//! operation is written once, as a specification-level step function over
//! [`LedgerState`]; the executable methods are proved to implement those
//! steps exactly.
//!
//! A repeated transaction id is rejected with
//! [`PaymentError::DuplicateTransaction`] rather than silently
//! overwriting the earlier record.

use vstd::prelude::*;

use crate::entities::account::Account;
use crate::entities::transaction::{
    Transaction, TransactionState, TransactionType, TRANSACTION_STATE_DISPUTED,
    TRANSACTION_STATE_NORMAL, TRANSACTION_STATE_REVERSED, TRANSACTION_TYPE_DEPOSIT,
    TRANSACTION_TYPE_WITHDRAWAL,
};
use crate::entities::transaction::{transaction_state_encode, transaction_type_encode};
use crate::repositories::account::{
    is_ascending_account_listing, AccountRepositoryInMemory, AccountRepositoryTrait,
};
use crate::repositories::transaction::{
    is_ascending_transaction_listing, TransactionRepositoryInMemory, TransactionRepositoryTrait,
};
use crate::{OperationType, TransactionLine};

verus! {

/// Why an operation was refused. Every failure is detected before any
/// store mutation, and is returned, never swallowed.
#[derive(Clone, Copy, Debug, PartialEq, Eq, Structural)]
pub enum PaymentError {
    /// Any operation against a locked account.
    AccountLocked,
    /// Withdrawal, dispute, resolve or chargeback against an unknown
    /// client.
    AccountDoesNotExist,
    /// Dispute, resolve or chargeback against an unknown transaction id.
    TransactionDoesNotExist,
    /// Dispute, resolve or chargeback attempted while the transaction is
    /// not in the state the operation requires.
    InvalidTransactionState,
    /// Withdrawal exceeding the available balance.
    InsufficientFunds,
    /// Deposit or withdrawal reusing an already recorded transaction id.
    DuplicateTransaction,
}

/// The whole observable state of the engine: the two keyed stores.
#[verifier::ext_equal]
pub struct LedgerState {
    pub accounts: Map<u16, Account>,
    pub transactions: Map<u32, Transaction>,
}

/// Whether `v` is representable as a 128-bit signed integer.
pub open spec fn fits_i128(v: int) -> bool {
    i128::MIN <= v <= i128::MAX
}

impl LedgerState {
    pub open spec fn has_account(self, client_id: u16) -> bool {
        self.accounts.contains_key(client_id)
    }

    /// The account of `client_id`, or the zeroed account a deposit would
    /// create for an unseen client.
    pub open spec fn account_or_default(self, client_id: u16) -> Account {
        if self.has_account(client_id) {
            self.accounts[client_id]
        } else {
            Account::spec_default_account(client_id)
        }
    }

    pub open spec fn is_locked(self, client_id: u16) -> bool {
        self.has_account(client_id) && self.accounts[client_id].locked
    }

    pub open spec fn has_transaction(self, tx_id: u32) -> bool {
        self.transactions.contains_key(tx_id)
    }

    /// The invariant the engine maintains: every stored account is keyed
    /// by its own client id and balanced (`total == available + held`),
    /// and every stored transaction is keyed by its own id with valid
    /// type and state encodings.
    pub open spec fn wf(self) -> bool {
        &&& forall|c: u16|
            #[trigger] self.accounts.contains_key(c) ==> self.accounts[c].client_id == c
                && self.accounts[c].is_balanced()
        &&& forall|t: u32|
            #[trigger] self.transactions.contains_key(t) ==> self.transactions[t].tx_id == t
                && self.transactions[t].is_well_formed()
    }
}

/// What a deposit does: against a locked account it fails; a reused
/// transaction id is refused; otherwise the account (created zeroed if
/// unseen) gains `amount` in `available` and `total`, and a `Normal`
/// deposit transaction is recorded.
pub open spec fn spec_deposit(s: LedgerState, client_id: u16, tx_id: u32, amount: i128) -> Result<
    LedgerState,
    PaymentError,
> {
    if s.is_locked(client_id) {
        Err(PaymentError::AccountLocked)
    } else if s.has_transaction(tx_id) {
        Err(PaymentError::DuplicateTransaction)
    } else {
        let acc = s.account_or_default(client_id);
        Ok(
            LedgerState {
                accounts: s.accounts.insert(
                    client_id,
                    Account {
                        client_id,
                        available: (acc.available + amount) as i128,
                        held: acc.held,
                        total: (acc.total + amount) as i128,
                        locked: false,
                    },
                ),
                transactions: s.transactions.insert(
                    tx_id,
                    Transaction {
                        tx_id,
                        tx_type: TRANSACTION_TYPE_DEPOSIT,
                        client_id,
                        amount,
                        state: TRANSACTION_STATE_NORMAL,
                    },
                ),
            },
        )
    }
}

/// The deposit arithmetic stays within `i128` whenever the deposit would
/// succeed.
pub open spec fn spec_deposit_fits(
    s: LedgerState,
    client_id: u16,
    tx_id: u32,
    amount: i128,
) -> bool {
    !s.is_locked(client_id) && !s.has_transaction(tx_id) ==> {
        let acc = s.account_or_default(client_id);
        fits_i128(acc.available + amount) && fits_i128(acc.total + amount)
    }
}

/// What a withdrawal does: it never creates an account, refuses locked
/// accounts and reused transaction ids, and fails when `available` is
/// short; otherwise the account loses `amount` from `available` and
/// `total`, and a `Normal` withdrawal transaction is recorded.
pub open spec fn spec_withdrawal(
    s: LedgerState,
    client_id: u16,
    tx_id: u32,
    amount: i128,
) -> Result<LedgerState, PaymentError> {
    if !s.has_account(client_id) {
        Err(PaymentError::AccountDoesNotExist)
    } else if s.accounts[client_id].locked {
        Err(PaymentError::AccountLocked)
    } else if s.has_transaction(tx_id) {
        Err(PaymentError::DuplicateTransaction)
    } else if s.accounts[client_id].available < amount {
        Err(PaymentError::InsufficientFunds)
    } else {
        let acc = s.accounts[client_id];
        Ok(
            LedgerState {
                accounts: s.accounts.insert(
                    client_id,
                    Account {
                        client_id,
                        available: (acc.available - amount) as i128,
                        held: acc.held,
                        total: (acc.total - amount) as i128,
                        locked: false,
                    },
                ),
                transactions: s.transactions.insert(
                    tx_id,
                    Transaction {
                        tx_id,
                        tx_type: TRANSACTION_TYPE_WITHDRAWAL,
                        client_id,
                        amount,
                        state: TRANSACTION_STATE_NORMAL,
                    },
                ),
            },
        )
    }
}

/// The withdrawal arithmetic stays within `i128` whenever the withdrawal
/// would succeed.
pub open spec fn spec_withdrawal_fits(
    s: LedgerState,
    client_id: u16,
    tx_id: u32,
    amount: i128,
) -> bool {
    (s.has_account(client_id) && !s.accounts[client_id].locked && !s.has_transaction(tx_id)
        && s.accounts[client_id].available >= amount) ==> {
        let acc = s.accounts[client_id];
        fits_i128(acc.available - amount) && fits_i128(acc.total - amount)
    }
}

/// What a dispute does: against an existing, unlocked account and an
/// existing transaction in `Normal` state, the transaction's amount moves
/// from `available` to `held` (leaving `total` unchanged) and the
/// transaction becomes `Disputed`.
pub open spec fn spec_dispute(s: LedgerState, client_id: u16, tx_id: u32) -> Result<
    LedgerState,
    PaymentError,
> {
    if !s.has_account(client_id) {
        Err(PaymentError::AccountDoesNotExist)
    } else if s.accounts[client_id].locked {
        Err(PaymentError::AccountLocked)
    } else if !s.has_transaction(tx_id) {
        Err(PaymentError::TransactionDoesNotExist)
    } else if s.transactions[tx_id].state != TRANSACTION_STATE_NORMAL {
        Err(PaymentError::InvalidTransactionState)
    } else {
        let acc = s.accounts[client_id];
        let tx = s.transactions[tx_id];
        Ok(
            LedgerState {
                accounts: s.accounts.insert(
                    client_id,
                    Account {
                        client_id: acc.client_id,
                        available: (acc.available - tx.amount) as i128,
                        held: (acc.held + tx.amount) as i128,
                        total: acc.total,
                        locked: acc.locked,
                    },
                ),
                transactions: s.transactions.insert(
                    tx_id,
                    Transaction { state: TRANSACTION_STATE_DISPUTED, ..tx },
                ),
            },
        )
    }
}

/// The dispute arithmetic stays within `i128` whenever the dispute would
/// succeed.
pub open spec fn spec_dispute_fits(s: LedgerState, client_id: u16, tx_id: u32) -> bool {
    (s.has_account(client_id) && !s.accounts[client_id].locked && s.has_transaction(tx_id)
        && s.transactions[tx_id].state == TRANSACTION_STATE_NORMAL) ==> {
        let acc = s.accounts[client_id];
        let tx = s.transactions[tx_id];
        fits_i128(acc.available - tx.amount) && fits_i128(acc.held + tx.amount)
    }
}

/// What a resolve does: against an existing, unlocked account and an
/// existing transaction in `Disputed` state, the transaction's amount
/// moves back from `held` to `available` (leaving `total` unchanged) and
/// the transaction returns to `Normal`.
pub open spec fn spec_resolve(s: LedgerState, client_id: u16, tx_id: u32) -> Result<
    LedgerState,
    PaymentError,
> {
    if !s.has_account(client_id) {
        Err(PaymentError::AccountDoesNotExist)
    } else if s.accounts[client_id].locked {
        Err(PaymentError::AccountLocked)
    } else if !s.has_transaction(tx_id) {
        Err(PaymentError::TransactionDoesNotExist)
    } else if s.transactions[tx_id].state != TRANSACTION_STATE_DISPUTED {
        Err(PaymentError::InvalidTransactionState)
    } else {
        let acc = s.accounts[client_id];
        let tx = s.transactions[tx_id];
        Ok(
            LedgerState {
                accounts: s.accounts.insert(
                    client_id,
                    Account {
                        client_id: acc.client_id,
                        available: (acc.available + tx.amount) as i128,
                        held: (acc.held - tx.amount) as i128,
                        total: acc.total,
                        locked: acc.locked,
                    },
                ),
                transactions: s.transactions.insert(
                    tx_id,
                    Transaction { state: TRANSACTION_STATE_NORMAL, ..tx },
                ),
            },
        )
    }
}

/// The resolve arithmetic stays within `i128` whenever the resolve would
/// succeed.
pub open spec fn spec_resolve_fits(s: LedgerState, client_id: u16, tx_id: u32) -> bool {
    (s.has_account(client_id) && !s.accounts[client_id].locked && s.has_transaction(tx_id)
        && s.transactions[tx_id].state == TRANSACTION_STATE_DISPUTED) ==> {
        let acc = s.accounts[client_id];
        let tx = s.transactions[tx_id];
        fits_i128(acc.available + tx.amount) && fits_i128(acc.held - tx.amount)
    }
}

/// What a chargeback does: against an existing, unlocked account and an
/// existing transaction in `Disputed` state, the transaction's amount
/// leaves both `held` and `total` (`available` is unchanged), the account
/// is permanently locked, and the transaction becomes `Reversed`.
pub open spec fn spec_chargeback(s: LedgerState, client_id: u16, tx_id: u32) -> Result<
    LedgerState,
    PaymentError,
> {
    if !s.has_account(client_id) {
        Err(PaymentError::AccountDoesNotExist)
    } else if s.accounts[client_id].locked {
        Err(PaymentError::AccountLocked)
    } else if !s.has_transaction(tx_id) {
        Err(PaymentError::TransactionDoesNotExist)
    } else if s.transactions[tx_id].state != TRANSACTION_STATE_DISPUTED {
        Err(PaymentError::InvalidTransactionState)
    } else {
        let acc = s.accounts[client_id];
        let tx = s.transactions[tx_id];
        Ok(
            LedgerState {
                accounts: s.accounts.insert(
                    client_id,
                    Account {
                        client_id: acc.client_id,
                        available: acc.available,
                        held: (acc.held - tx.amount) as i128,
                        total: (acc.total - tx.amount) as i128,
                        locked: true,
                    },
                ),
                transactions: s.transactions.insert(
                    tx_id,
                    Transaction { state: TRANSACTION_STATE_REVERSED, ..tx },
                ),
            },
        )
    }
}

/// The chargeback arithmetic stays within `i128` whenever the chargeback
/// would succeed.
pub open spec fn spec_chargeback_fits(s: LedgerState, client_id: u16, tx_id: u32) -> bool {
    (s.has_account(client_id) && !s.accounts[client_id].locked && s.has_transaction(tx_id)
        && s.transactions[tx_id].state == TRANSACTION_STATE_DISPUTED) ==> {
        let acc = s.accounts[client_id];
        let tx = s.transactions[tx_id];
        fits_i128(acc.held - tx.amount) && fits_i128(acc.total - tx.amount)
    }
}

/// What one input record does to the ledger, dispatching on its
/// operation kind.
pub open spec fn spec_apply(s: LedgerState, line: TransactionLine) -> Result<
    LedgerState,
    PaymentError,
> {
    match line.tx_type {
        OperationType::Deposit => spec_deposit(s, line.client_id, line.tx_id, line.amount->0),
        OperationType::Withdrawal => spec_withdrawal(
            s,
            line.client_id,
            line.tx_id,
            line.amount->0,
        ),
        OperationType::Dispute => spec_dispute(s, line.client_id, line.tx_id),
        OperationType::Resolve => spec_resolve(s, line.client_id, line.tx_id),
        OperationType::Chargeback => spec_chargeback(s, line.client_id, line.tx_id),
    }
}

/// The arithmetic of one record stays within `i128` whenever the record's
/// operation would succeed.
pub open spec fn spec_apply_fits(s: LedgerState, line: TransactionLine) -> bool {
    match line.tx_type {
        OperationType::Deposit => spec_deposit_fits(
            s,
            line.client_id,
            line.tx_id,
            line.amount->0,
        ),
        OperationType::Withdrawal => spec_withdrawal_fits(
            s,
            line.client_id,
            line.tx_id,
            line.amount->0,
        ),
        OperationType::Dispute => spec_dispute_fits(s, line.client_id, line.tx_id),
        OperationType::Resolve => spec_resolve_fits(s, line.client_id, line.tx_id),
        OperationType::Chargeback => spec_chargeback_fits(s, line.client_id, line.tx_id),
    }
}

/// The ledger after one record: the new state on success, the old state
/// untouched on failure (the failed record is skipped).
pub open spec fn spec_step(s: LedgerState, line: TransactionLine) -> LedgerState {
    match spec_apply(s, line) {
        Ok(s2) => s2,
        Err(_) => s,
    }
}

/// The ledger after replaying a whole sequence of records in order,
/// skipping the ones that fail.
pub open spec fn spec_replay(s: LedgerState, lines: Seq<TransactionLine>) -> LedgerState
    decreases lines.len(),
{
    if lines.len() == 0 {
        s
    } else {
        spec_step(spec_replay(s, lines.drop_last()), lines.last())
    }
}

/// Law: one record preserves the ledger invariant — afterwards every
/// account still satisfies `total == available + held` and every record
/// is keyed by its own id. (The arithmetic of the record must fit in
/// `i128`, which is what the executable engine's preconditions enforce.)
pub proof fn lemma_apply_preserves_wf(s: LedgerState, line: TransactionLine)
    requires
        s.wf(),
        spec_apply_fits(s, line),
    ensures
        spec_step(s, line).wf(),
{
}

/// Law: the ledger invariant holds at every point in time — replaying any
/// sequence of records whose arithmetic fits keeps every account
/// balanced (`total == available + held`).
pub proof fn lemma_replay_preserves_wf(s: LedgerState, lines: Seq<TransactionLine>)
    requires
        s.wf(),
        forall|i: int|
            0 <= i < lines.len() ==> spec_apply_fits(
                #[trigger] spec_replay(s, lines.take(i)),
                lines[i],
            ),
    ensures
        spec_replay(s, lines).wf(),
    decreases lines.len(),
{
    if lines.len() > 0 {
        let prefix = lines.drop_last();
        assert forall|i: int| 0 <= i < prefix.len() implies spec_apply_fits(
            #[trigger] spec_replay(s, prefix.take(i)),
            prefix[i],
        ) by {
            assert(prefix.take(i) =~= lines.take(i));
            assert(prefix[i] == lines[i]);
        }
        lemma_replay_preserves_wf(s, prefix);
        assert(prefix =~= lines.take(lines.len() - 1));
        lemma_apply_preserves_wf(spec_replay(s, prefix), lines.last());
    }
}

/// Law: `locked` is monotonic — one record, whatever it is, leaves a
/// locked account exactly as it was, still locked.
pub proof fn lemma_apply_locked_frozen(s: LedgerState, line: TransactionLine, client_id: u16)
    requires
        s.is_locked(client_id),
    ensures
        spec_step(s, line).has_account(client_id),
        spec_step(s, line).accounts[client_id] == s.accounts[client_id],
        spec_step(s, line).is_locked(client_id),
{
}

/// Law: `locked` is monotonic over whole runs — once an account is
/// locked, no later record mutates its `available`, `held`, `total` or
/// `locked` fields.
pub proof fn lemma_replay_locked_frozen(
    s: LedgerState,
    lines: Seq<TransactionLine>,
    client_id: u16,
)
    requires
        s.is_locked(client_id),
    ensures
        spec_replay(s, lines).has_account(client_id),
        spec_replay(s, lines).accounts[client_id] == s.accounts[client_id],
        spec_replay(s, lines).is_locked(client_id),
    decreases lines.len(),
{
    if lines.len() > 0 {
        lemma_replay_locked_frozen(s, lines.drop_last(), client_id);
        lemma_apply_locked_frozen(spec_replay(s, lines.drop_last()), lines.last(), client_id);
    }
}

/// The in-memory payments engine: exclusive owner of the transaction and
/// account stores.
pub struct PaymentService {
    tx_store: TransactionRepositoryInMemory,
    ac_store: AccountRepositoryInMemory,
}

impl PaymentService {
    /// The engine's observable state: the contents of its two stores.
    pub closed spec fn state(self) -> LedgerState {
        LedgerState {
            accounts: self.ac_store.repo_view(),
            transactions: self.tx_store.repo_view(),
        }
    }

    pub open spec fn wf(self) -> bool {
        self.state().wf()
    }

    pub fn new(tx_store: TransactionRepositoryInMemory, ac_store: AccountRepositoryInMemory) -> (r:
        PaymentService)
        ensures
            r.state().accounts == ac_store.repo_view(),
            r.state().transactions == tx_store.repo_view(),
    {
        PaymentService { tx_store, ac_store }
    }

    pub fn deposit(&mut self, client_id: u16, tx_id: u32, amount: i128) -> (r: Result<
        (),
        PaymentError,
    >)
        requires
            old(self).wf(),
            spec_deposit_fits(old(self).state(), client_id, tx_id, amount),
        ensures
            final(self).wf(),
            match spec_deposit(old(self).state(), client_id, tx_id, amount) {
                Ok(s2) => r == Ok::<(), PaymentError>(()) && final(self).state() == s2,
                Err(e) => r == Err::<(), PaymentError>(e) && final(self).state() == old(
                    self,
                ).state(),
            },
    {
        let account: Account = match self.ac_store.find(client_id) {
            Some(a) => *a,
            None => Account::build_default_account(client_id),
        };
        if account.locked {
            return Err(PaymentError::AccountLocked);
        }
        if self.tx_store.find(tx_id).is_some() {
            return Err(PaymentError::DuplicateTransaction);
        }
        self.tx_store.update(
            tx_id,
            Transaction::new(
                tx_id,
                transaction_type_encode(TransactionType::Deposit),
                client_id,
                amount,
                transaction_state_encode(TransactionState::Normal),
            ),
        );
        let updated = Account {
            client_id,
            available: account.available + amount,
            held: account.held,
            total: account.total + amount,
            locked: false,
        };
        self.ac_store.update(client_id, updated);
        Ok(())
    }

    pub fn withdrawal(&mut self, client_id: u16, tx_id: u32, amount: i128) -> (r: Result<
        (),
        PaymentError,
    >)
        requires
            old(self).wf(),
            spec_withdrawal_fits(old(self).state(), client_id, tx_id, amount),
        ensures
            final(self).wf(),
            match spec_withdrawal(old(self).state(), client_id, tx_id, amount) {
                Ok(s2) => r == Ok::<(), PaymentError>(()) && final(self).state() == s2,
                Err(e) => r == Err::<(), PaymentError>(e) && final(self).state() == old(
                    self,
                ).state(),
            },
    {
        let account: Account = match self.ac_store.find(client_id) {
            Some(a) => *a,
            None => {
                return Err(PaymentError::AccountDoesNotExist);
            },
        };
        if account.locked {
            return Err(PaymentError::AccountLocked);
        }
        if self.tx_store.find(tx_id).is_some() {
            return Err(PaymentError::DuplicateTransaction);
        }
        if account.available < amount {
            return Err(PaymentError::InsufficientFunds);
        }
        self.tx_store.update(
            tx_id,
            Transaction::new(
                tx_id,
                transaction_type_encode(TransactionType::Withdrawal),
                client_id,
                amount,
                transaction_state_encode(TransactionState::Normal),
            ),
        );
        let updated = Account {
            client_id,
            available: account.available - amount,
            held: account.held,
            total: account.total - amount,
            locked: false,
        };
        self.ac_store.update(client_id, updated);
        Ok(())
    }

    pub fn dispute(&mut self, client_id: u16, tx_id: u32) -> (r: Result<(), PaymentError>)
        requires
            old(self).wf(),
            spec_dispute_fits(old(self).state(), client_id, tx_id),
        ensures
            final(self).wf(),
            match spec_dispute(old(self).state(), client_id, tx_id) {
                Ok(s2) => r == Ok::<(), PaymentError>(()) && final(self).state() == s2,
                Err(e) => r == Err::<(), PaymentError>(e) && final(self).state() == old(
                    self,
                ).state(),
            },
    {
        let account: Account = match self.ac_store.find(client_id) {
            Some(a) => *a,
            None => {
                return Err(PaymentError::AccountDoesNotExist);
            },
        };
        if account.locked {
            return Err(PaymentError::AccountLocked);
        }
        let tx: Transaction = match self.tx_store.find(tx_id) {
            Some(t) => *t,
            None => {
                return Err(PaymentError::TransactionDoesNotExist);
            },
        };
        if tx.state != TRANSACTION_STATE_NORMAL {
            return Err(PaymentError::InvalidTransactionState);
        }
        let updated = Account {
            client_id: account.client_id,
            available: account.available - tx.amount,
            held: account.held + tx.amount,
            total: account.total,
            locked: account.locked,
        };
        let disputed = Transaction { state: TRANSACTION_STATE_DISPUTED, ..tx };
        self.ac_store.update(updated.client_id, updated);
        self.tx_store.update(disputed.tx_id, disputed);
        Ok(())
    }

    pub fn resolve(&mut self, client_id: u16, tx_id: u32) -> (r: Result<(), PaymentError>)
        requires
            old(self).wf(),
            spec_resolve_fits(old(self).state(), client_id, tx_id),
        ensures
            final(self).wf(),
            match spec_resolve(old(self).state(), client_id, tx_id) {
                Ok(s2) => r == Ok::<(), PaymentError>(()) && final(self).state() == s2,
                Err(e) => r == Err::<(), PaymentError>(e) && final(self).state() == old(
                    self,
                ).state(),
            },
    {
        let account: Account = match self.ac_store.find(client_id) {
            Some(a) => *a,
            None => {
                return Err(PaymentError::AccountDoesNotExist);
            },
        };
        if account.locked {
            return Err(PaymentError::AccountLocked);
        }
        let tx: Transaction = match self.tx_store.find(tx_id) {
            Some(t) => *t,
            None => {
                return Err(PaymentError::TransactionDoesNotExist);
            },
        };
        if tx.state != TRANSACTION_STATE_DISPUTED {
            return Err(PaymentError::InvalidTransactionState);
        }
        let updated = Account {
            client_id: account.client_id,
            available: account.available + tx.amount,
            held: account.held - tx.amount,
            total: account.total,
            locked: account.locked,
        };
        let restored = Transaction { state: TRANSACTION_STATE_NORMAL, ..tx };
        self.ac_store.update(updated.client_id, updated);
        self.tx_store.update(restored.tx_id, restored);
        Ok(())
    }

    pub fn chargeback(&mut self, client_id: u16, tx_id: u32) -> (r: Result<(), PaymentError>)
        requires
            old(self).wf(),
            spec_chargeback_fits(old(self).state(), client_id, tx_id),
        ensures
            final(self).wf(),
            match spec_chargeback(old(self).state(), client_id, tx_id) {
                Ok(s2) => r == Ok::<(), PaymentError>(()) && final(self).state() == s2,
                Err(e) => r == Err::<(), PaymentError>(e) && final(self).state() == old(
                    self,
                ).state(),
            },
    {
        let account: Account = match self.ac_store.find(client_id) {
            Some(a) => *a,
            None => {
                return Err(PaymentError::AccountDoesNotExist);
            },
        };
        if account.locked {
            return Err(PaymentError::AccountLocked);
        }
        let tx: Transaction = match self.tx_store.find(tx_id) {
            Some(t) => *t,
            None => {
                return Err(PaymentError::TransactionDoesNotExist);
            },
        };
        if tx.state != TRANSACTION_STATE_DISPUTED {
            return Err(PaymentError::InvalidTransactionState);
        }
        let updated = Account {
            client_id: account.client_id,
            available: account.available,
            held: account.held - tx.amount,
            total: account.total - tx.amount,
            locked: true,
        };
        let reversed = Transaction { state: TRANSACTION_STATE_REVERSED, ..tx };
        self.ac_store.update(updated.client_id, updated);
        self.tx_store.update(reversed.tx_id, reversed);
        Ok(())
    }

    /// Looks up one account; never creates or mutates anything.
    pub fn get_account(&self, client_id: u16) -> (r: Option<&Account>)
        ensures
            match r {
                Some(account) => self.state().has_account(client_id) && *account
                    == self.state().accounts[client_id],
                None => !self.state().has_account(client_id),
            },
    {
        self.ac_store.find(client_id)
    }

    /// Lists every account, in ascending client-id order.
    pub fn get_accounts(&self) -> (r: Vec<Account>)
        ensures
            is_ascending_account_listing(self.state().accounts, r@),
    {
        self.ac_store.find_all()
    }

    /// Looks up one transaction; never creates or mutates anything.
    pub fn get_transaction(&self, tx_id: u32) -> (r: Option<&Transaction>)
        ensures
            match r {
                Some(transaction) => self.state().has_transaction(tx_id) && *transaction
                    == self.state().transactions[tx_id],
                None => !self.state().has_transaction(tx_id),
            },
    {
        self.tx_store.find(tx_id)
    }

    /// Lists every transaction, in ascending transaction-id order.
    pub fn get_transactions(&self) -> (r: Vec<Transaction>)
        ensures
            is_ascending_transaction_listing(self.state().transactions, r@),
    {
        self.tx_store.find_all()
    }
}

} // verus!
