//! Custodial ledger core for a trading venue.
//!
//! This crate holds the account data model of the venue's vault — the
//! per-user balance records and their sub-ledgers (margin, prediction
//! market, multi-instrument spot, recurring payments) — together with the
//! transition logic that mutates them and the authorization gate that
//! restricts externally-triggered mutations to a whitelisted set of callers.
//!
//! Every balance movement is overflow-checked and validated before any
//! record is touched: a rejected operation reports exactly one
//! [`error::VaultError`] and leaves every record unchanged.

pub mod addr;
pub mod auth;
pub mod conservation;
pub mod error;
pub mod fees;
pub mod instruction;
pub mod processor;
pub mod recurring;
pub mod spot;
pub mod state;
pub mod utils;
pub mod wire;
