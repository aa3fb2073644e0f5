//! A two-party token-swap escrow over an explicit ledger of accounts.

pub mod address;
pub mod constraints;
pub mod derivation;
pub mod error;
pub mod instructions;
pub mod laws;
pub mod ledger;
pub mod programs;
pub mod state;
