//! A single-pass, in-memory payments ledger.
//!
//! Transaction records (deposits, withdrawals, disputes, resolves and
//! chargebacks) are replayed in order against a set of per-client
//! accounts, with every amount kept as a scaled integer with four decimal
//! places (see [`fixed`]). The ledger engine lives in
//! [`services::payment`]; reading the input records and rendering the
//! final snapshot are left to the caller, which hands the engine one
//! validated [`TransactionLine`] at a time.

pub mod entities;
pub mod fixed;
pub mod repositories;
pub mod services;

use vstd::prelude::*;

use crate::services::payment::{spec_apply, spec_apply_fits, PaymentError, PaymentService};

verus! {

/// Where to read the transaction records from.
#[derive(Debug)]
pub struct Config {
    pub filename: String,
}

impl Config {
    /// Takes the process arguments (program name first) and picks the
    /// input file name from the first real argument.
    pub fn new(args: Vec<String>) -> (r: Result<Config, &'static str>)
        ensures
            match r {
                Ok(config) => args@.len() >= 2 && config.filename@ == args@[1]@,
                Err(message) => args@.len() < 2 && message@ == "Didn't get a file name"@,
            },
    {
        if args.len() < 2 {
            return Err("Didn't get a file name");
        }
        let filename = args[1].clone();
        Ok(Config { filename })
    }
}

/// Why the shape of an input record was refused.
#[derive(Clone, Copy, Debug, PartialEq, Eq, Structural)]
pub enum TransactionLineError {
    /// A deposit or withdrawal without an amount field.
    AmountMissing,
    /// A dispute, resolve or chargeback with an amount field.
    AmountForbidden,
}

/// The kind of operation one input record asks for.
#[derive(Clone, Copy, Debug, PartialEq, Eq, Structural)]
pub enum OperationType {
    Deposit,
    Withdrawal,
    Dispute,
    Resolve,
    Chargeback,
}

/// One validated input record, with its amount already converted to the
/// scaled integer form.
#[derive(Clone, Copy, Debug)]
pub struct TransactionLine {
    pub tx_type: OperationType,
    pub client_id: u16,
    pub tx_id: u32,
    pub amount: Option<i128>,
}

impl TransactionLine {
    /// A deposit or withdrawal record carries an amount; a dispute,
    /// resolve or chargeback record carries none.
    pub open spec fn is_valid_shape(self) -> bool {
        match self.tx_type {
            OperationType::Deposit | OperationType::Withdrawal => self.amount is Some,
            _ => self.amount is None,
        }
    }

    /// The amount field is present whenever the operation needs one.
    pub open spec fn has_required_amount(self) -> bool {
        match self.tx_type {
            OperationType::Deposit | OperationType::Withdrawal => self.amount is Some,
            _ => true,
        }
    }

    /// Checks the record's shape: exactly the operations that move a
    /// fresh amount carry an amount field.
    pub fn validate(&self) -> (r: Result<(), TransactionLineError>)
        ensures
            r is Ok <==> self.is_valid_shape(),
            match r {
                Ok(_) => self.is_valid_shape(),
                Err(TransactionLineError::AmountMissing) => self.amount is None && (
                self.tx_type matches OperationType::Deposit
                    || self.tx_type matches OperationType::Withdrawal),
                Err(TransactionLineError::AmountForbidden) => self.amount is Some && !(
                self.tx_type matches OperationType::Deposit
                    || self.tx_type matches OperationType::Withdrawal),
            },
    {
        match self.tx_type {
            OperationType::Deposit | OperationType::Withdrawal => {
                match self.amount {
                    Some(_) => Ok(()),
                    None => Err(TransactionLineError::AmountMissing),
                }
            },
            OperationType::Dispute | OperationType::Resolve | OperationType::Chargeback => {
                match self.amount {
                    None => Ok(()),
                    Some(_) => Err(TransactionLineError::AmountForbidden),
                }
            },
        }
    }
}

/// Applies one record to the engine, dispatching on the operation kind.
pub fn process_transaction(transaction: &TransactionLine, transaction_service: &mut PaymentService)
    -> (r: Result<(), PaymentError>)
    requires
        old(transaction_service).wf(),
        transaction.has_required_amount(),
        spec_apply_fits(old(transaction_service).state(), *transaction),
    ensures
        final(transaction_service).wf(),
        match spec_apply(old(transaction_service).state(), *transaction) {
            Ok(s2) => r == Ok::<(), PaymentError>(()) && final(transaction_service).state() == s2,
            Err(e) => r == Err::<(), PaymentError>(e) && final(transaction_service).state() == old(
                transaction_service,
            ).state(),
        },
{
    match transaction.tx_type {
        OperationType::Deposit => transaction_service.deposit(
            transaction.client_id,
            transaction.tx_id,
            transaction.amount.unwrap(),
        ),
        OperationType::Withdrawal => transaction_service.withdrawal(
            transaction.client_id,
            transaction.tx_id,
            transaction.amount.unwrap(),
        ),
        OperationType::Dispute => transaction_service.dispute(
            transaction.client_id,
            transaction.tx_id,
        ),
        OperationType::Resolve => transaction_service.resolve(
            transaction.client_id,
            transaction.tx_id,
        ),
        OperationType::Chargeback => transaction_service.chargeback(
            transaction.client_id,
            transaction.tx_id,
        ),
    }
}

} // verus!
