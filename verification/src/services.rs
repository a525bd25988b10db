//! The ledger engine: the five operations of the payments state machine
//! and its read accessors.

pub mod payment;
