//! Accounting core of a multi-asset tokenized vault: deposit/redeem share
//! accounting, time-proportional management-fee accrual, and multi-party fee
//! distribution, with the arithmetic and state transitions verified.
//!
//! The host ledger (token transfers, mints, burns, clock reads, record
//! storage) is an external collaborator: every operation here takes the plain
//! values an embedding reads from the ledger, decides and computes under a
//! contract, and reports the token movements the embedding must perform.

pub mod accrual;
pub mod constants;
pub mod deposit;
pub mod errors;
pub mod events;
pub mod factory;
pub mod fees;
pub mod math;
pub mod redeem;
pub mod state;
pub mod vault;
