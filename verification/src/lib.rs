//! Tip-processing and state-accounting engine for a creator tipping platform.
//!
//! The engine validates a tip, splits the gross amount into a platform fee
//! and a net payout, updates the platform, creator and (optionally) agent
//! records, and derives the engagement streak and the all-time top-tip
//! record. The host environment that authenticates callers, moves tokens
//! and persists the records sits outside this crate; the engine works on
//! plain values and states exactly what each operation does to them.

pub mod errors;
pub mod state;
pub mod events;
pub mod fees;
pub mod streak;
pub mod registry;
pub mod admin;
pub mod tip;
pub mod laws;
