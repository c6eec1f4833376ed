//! A reputation-and-governance ledger: stake-weighted voting, reputation
//! tiers and an administrator who can pause the system or reset a profile.
//!
//! Every operation validates all of its preconditions before it writes
//! anything, so a failed operation leaves the ledger exactly as it was.
pub mod constants;
pub mod error;
pub mod instructions;
pub mod ledger;
pub mod state;
pub mod repute_dao;
pub mod guarantees;
