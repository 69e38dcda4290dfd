//! Custody programs for fungible and unique tokens: a vesting and staking
//! module and a marketplace escrow, with the arithmetic and the state
//! transitions of each operation verified.
//!
//! Every operation is a decision: it reads the persisted record and the
//! caller's input, and yields the next record together with the transfers
//! that the ledger has to carry out within the same atomic unit.

pub mod authority;
pub mod error;
pub mod transfer;
pub mod vesting;
pub mod staking;
pub mod marketplace;
