//! A token faucet: an admin configures payouts and limits, and accounts
//! claim small payouts subject to a per-account cooldown and a cap on the
//! number of accounts that may share one reported network address.
//!
//! The ledger around the faucet (caller identity, block time, balance,
//! transfers, event delivery, persistence) is not part of this crate: each
//! call takes what it needs from the ledger as plain values and hands back
//! the transfer and payout notification it decided on.
use vstd::prelude::*;

pub mod account;
pub mod table;
pub mod eligibility;
pub mod faucet;
pub mod types;
pub mod laws;
