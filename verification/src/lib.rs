//! Staking facade of a node application's backend.
//!
//! The library holds the decisions of the staking workflow: how the readings
//! taken from a registry of staking contracts fold into one summary, which
//! preconditions a transaction must meet before it may be submitted, and what
//! outcome is reported for each answer of the network. Reading the chain and
//! sending transactions is left to the caller, which hands plain values in
//! and takes plain values back.

pub mod amount;
pub mod wallet;
pub mod registry;
pub mod summary;
pub mod transaction;
