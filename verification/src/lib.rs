//! Staking-and-rewards accounting engine for a liquidity-pool protocol.
//!
//! Participants lock a fungible asset, accrue a time-weighted claim on a
//! shared reward pool, and later withdraw principal and/or rewards subject
//! to lock-up, fee, and emergency-mode rules. This crate holds the ledger
//! model and every state transition; moving the asset itself (custody) is
//! the caller's concern and happens only after a transition here succeeds.

pub mod errors;
pub mod governance;
pub mod laws;
pub mod rewards;
pub mod staking;
pub mod state;
pub mod weight;
