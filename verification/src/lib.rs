//! A two-party escrow: each party places one asset into custody that the
//! escrow record controls, and a settlement exchanges the two assets in one
//! step. Either party may take its own deposit back before settlement.

pub mod address;
pub mod authorization;
pub mod derivation;
pub mod error;
pub mod escrow3;
pub mod laws;
pub mod ledger;
pub mod operation;
pub mod protocol;
pub mod record;
pub mod seahorseswap;
pub mod token;
