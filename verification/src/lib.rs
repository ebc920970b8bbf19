//! A verified core for ledger-backed contract examples: a key-value store
//! with three durability classes, one-time initialization discipline,
//! authorization-gated token movement, and an all-or-nothing bulk transfer.

pub mod adder;
pub mod auth;
pub mod bulk;
pub mod constructor;
pub mod errors;
pub mod increment;
pub mod sac;
pub mod store;
pub mod store_contract;
pub mod token;
pub mod values;
