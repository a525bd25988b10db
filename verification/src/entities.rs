//! The two entity types the ledger keeps: per-client accounts and the
//! transactions recorded against them.

pub mod account;
pub mod transaction;
