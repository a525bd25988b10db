//! Keyed in-memory stores for the two entity types, each a thin layer
//! over an ordered map so that "list all" operations come back in
//! ascending key order.

pub mod account;
pub mod in_memory;
pub mod transaction;
