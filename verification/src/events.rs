use vstd::prelude::*;
use crate::state::AccountId;

verus! {

/// Record appended to the host's event log when a creator registers.
#[derive(Clone, Debug)]
pub struct CreatorRegistered {
    pub creator: AccountId,
    pub basename: String,
    pub display_name: String,
    pub timestamp: i64,
}

/// Record appended to the host's event log when an agent registers.
#[derive(Clone, Debug)]
pub struct AgentRegistered {
    pub agent: AccountId,
    pub agent_name: String,
    pub timestamp: i64,
}

/// Record appended to the host's event log for every accepted tip.
#[derive(Clone, Debug)]
pub struct TipSent {
    pub from: AccountId,
    pub to: AccountId,
    pub amount: u64,
    pub amount_after_fee: u64,
    pub fee: u64,
    pub message: String,
    pub payment_proof: String,
    pub timestamp: i64,
}

/// Record appended when a tip's gross amount strictly exceeds the previous
/// all-time top tip.
#[derive(Clone, Copy, Debug, PartialEq, Eq, Structural)]
pub struct NewTopTipper {
    pub tipper: AccountId,
    pub amount: u64,
    pub timestamp: i64,
}

/// Record appended when a creator's streak, incremented by a tip inside the
/// 24-hour window, lands on a multiple of 5.
#[derive(Clone, Copy, Debug, PartialEq, Eq, Structural)]
pub struct StreakMilestone {
    pub creator: AccountId,
    pub streak: u32,
    pub timestamp: i64,
}

} // verus!
