//! A verified transaction-processing ledger.
//!
//! Events (deposits, withdrawals, disputes, resolves, chargebacks) are applied
//! to per-client accounts held in concurrent maps. The rule engine, the
//! fixed-point balance arithmetic and the final projection are verified; the
//! asynchronous plumbing that feeds events in and writes balances out lives
//! outside this crate.

pub mod decimal;
pub mod models;
pub mod store;
pub mod account;
pub mod transaction;
pub mod laws;
