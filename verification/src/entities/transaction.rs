//! Transaction records and the encodings of their type and dispute state.

use vstd::prelude::*;

verus! {

/// Encoding of [`TransactionType::Deposit`].
pub const TRANSACTION_TYPE_DEPOSIT: u8 = 0;

/// Encoding of [`TransactionType::Withdrawal`].
pub const TRANSACTION_TYPE_WITHDRAWAL: u8 = 1;

/// Encoding of [`TransactionState::Normal`].
pub const TRANSACTION_STATE_NORMAL: u8 = 0;

/// Encoding of [`TransactionState::Disputed`].
pub const TRANSACTION_STATE_DISPUTED: u8 = 1;

/// Encoding of [`TransactionState::Reversed`].
pub const TRANSACTION_STATE_REVERSED: u8 = 2;

/// One recorded funds movement. Only deposits and withdrawals create
/// transactions; the dispute cycle mutates `state` in place and leaves
/// every other field untouched. `amount` is a scaled integer (see
/// [`crate::fixed`]).
#[derive(Clone, Copy, Debug, PartialEq, Eq, Structural)]
pub struct Transaction {
    pub tx_id: u32,
    pub tx_type: u8,
    pub client_id: u16,
    pub amount: i128,
    pub state: u8,
}

/// The two kinds of funds movement that create a transaction record.
#[derive(Clone, Copy, Debug, PartialEq, Eq, Structural)]
pub enum TransactionType {
    Deposit,
    Withdrawal,
}

/// Where a transaction stands in the dispute cycle:
/// `Normal -> Disputed -> Normal` (resolve) or `-> Reversed` (chargeback,
/// terminal).
#[derive(Clone, Copy, Debug, PartialEq, Eq, Structural)]
pub enum TransactionState {
    Normal,
    Disputed,
    Reversed,
}

pub open spec fn spec_transaction_type_encode(type_enum: TransactionType) -> u8 {
    match type_enum {
        TransactionType::Deposit => TRANSACTION_TYPE_DEPOSIT,
        TransactionType::Withdrawal => TRANSACTION_TYPE_WITHDRAWAL,
    }
}

/// Whether a byte is the encoding of some transaction type.
pub open spec fn valid_transaction_type(value: u8) -> bool {
    value == TRANSACTION_TYPE_DEPOSIT || value == TRANSACTION_TYPE_WITHDRAWAL
}

pub open spec fn spec_transaction_state_encode(state_enum: TransactionState) -> u8 {
    match state_enum {
        TransactionState::Normal => TRANSACTION_STATE_NORMAL,
        TransactionState::Disputed => TRANSACTION_STATE_DISPUTED,
        TransactionState::Reversed => TRANSACTION_STATE_REVERSED,
    }
}

/// Whether a byte is the encoding of some transaction state.
pub open spec fn valid_transaction_state(value: u8) -> bool {
    value == TRANSACTION_STATE_NORMAL || value == TRANSACTION_STATE_DISPUTED || value
        == TRANSACTION_STATE_REVERSED
}

#[verifier::when_used_as_spec(spec_transaction_type_encode)]
pub fn transaction_type_encode(type_enum: TransactionType) -> (r: u8)
    ensures
        r == spec_transaction_type_encode(type_enum),
{
    match type_enum {
        TransactionType::Deposit => TRANSACTION_TYPE_DEPOSIT,
        TransactionType::Withdrawal => TRANSACTION_TYPE_WITHDRAWAL,
    }
}

pub fn transaction_type_decode(value: u8) -> (r: TransactionType)
    requires
        valid_transaction_type(value),
    ensures
        spec_transaction_type_encode(r) == value,
{
    if value == TRANSACTION_TYPE_DEPOSIT {
        TransactionType::Deposit
    } else {
        TransactionType::Withdrawal
    }
}

#[verifier::when_used_as_spec(spec_transaction_state_encode)]
pub fn transaction_state_encode(state_enum: TransactionState) -> (r: u8)
    ensures
        r == spec_transaction_state_encode(state_enum),
{
    match state_enum {
        TransactionState::Normal => TRANSACTION_STATE_NORMAL,
        TransactionState::Disputed => TRANSACTION_STATE_DISPUTED,
        TransactionState::Reversed => TRANSACTION_STATE_REVERSED,
    }
}

pub fn transaction_state_decode(value: u8) -> (r: TransactionState)
    requires
        valid_transaction_state(value),
    ensures
        spec_transaction_state_encode(r) == value,
{
    if value == TRANSACTION_STATE_NORMAL {
        TransactionState::Normal
    } else if value == TRANSACTION_STATE_DISPUTED {
        TransactionState::Disputed
    } else {
        TransactionState::Reversed
    }
}

impl Transaction {
    /// A transaction is well formed when its type and state bytes are
    /// valid encodings.
    pub open spec fn is_well_formed(self) -> bool {
        valid_transaction_type(self.tx_type) && valid_transaction_state(self.state)
    }

    pub fn new(tx_id: u32, tx_type: u8, client_id: u16, amount: i128, state: u8) -> (r:
        Transaction)
        requires
            valid_transaction_type(tx_type),
            valid_transaction_state(state),
        ensures
            r == (Transaction { tx_id, tx_type, client_id, amount, state }),
    {
        Transaction { tx_id, tx_type, client_id, amount, state }
    }
}

} // verus!
