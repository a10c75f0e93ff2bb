//! A custodial payment ledger that authorizes balance-changing operations
//! (deposit, withdraw, freeze, unfreeze, transfer, settle) through detached
//! signatures over canonical messages, enforces at-most-once execution per
//! serial number, and keeps every account's available/frozen partitions
//! non-negative under checked arithmetic.

pub mod codec;
pub mod engine;
pub mod errors;
pub mod events;
pub mod laws;
pub mod messages;
pub mod state;
pub mod store;
pub mod transitions;
pub mod utils;
