use vstd::prelude::*;

verus! {

/// Fee denominator fixed by the platform: fees are quoted in basis points,
/// 10000 basis points = 100%.
pub const FEE_DENOMINATOR: u16 = 10000;

/// Highest fee the platform may charge: 1000 basis points = 10%.
pub const MAX_FEE_BPS: u16 = 1000;

/// Reputation score every new creator and agent starts with.
pub const INITIAL_REPUTATION: u32 = 100;

/// Opaque identity of an account on the host platform. The host addresses
/// accounts by its own keys; the engine never looks inside an identity, it
/// only stores and copies it, so the host may map its keys to these values
/// any way it likes.
#[derive(Clone, Copy, Debug, PartialEq, Eq, Structural)]
pub struct AccountId {
    pub id: u64,
}

/// The platform-wide singleton record: fee configuration, circuit breaker,
/// running counters, and the all-time top-tip record.
#[derive(Clone, Debug)]
pub struct PlatformConfig {
    pub authority: AccountId,
    pub platform_fee: u16,
    pub fee_denominator: u16,
    pub min_tip_amount: u64,
    pub paused: bool,
    pub total_creators: u64,
    pub total_tips: u64,
    pub total_volume: u64,
    pub top_tipper: AccountId,
    pub top_tip_amount: u64,
}

impl PlatformConfig {
    /// Configuration invariant: the denominator is the platform constant and
    /// the fee never exceeds 10%. Established at initialization, preserved by
    /// every operation.
    pub open spec fn wf(self) -> bool {
        &&& self.fee_denominator == FEE_DENOMINATOR
        &&& self.platform_fee <= MAX_FEE_BPS
    }
}

/// One registered creator: profile fields plus the statistics every received
/// tip updates.
#[derive(Clone, Debug)]
pub struct Creator {
    pub authority: AccountId,
    pub basename: String,
    pub display_name: String,
    pub avatar_url: String,
    pub total_tips_received: u64,
    pub tip_count: u32,
    pub last_tip_time: i64,
    pub streak: u32,
    pub reputation_score: u32,
    pub agent_count: u32,
}

impl Creator {
    /// Record invariant: the streak is always at least 1 and the last-tip
    /// timestamp is never negative (it is 0 at registration, afterwards a
    /// clock reading). Established at registration, preserved by every tip.
    pub open spec fn wf(self) -> bool {
        &&& self.streak >= 1
        &&& self.last_tip_time >= 0
    }
}

/// One registered agent: profile fields plus the statistics every tip it
/// sends updates.
#[derive(Clone, Debug)]
pub struct Agent {
    pub authority: AccountId,
    pub agent_name: String,
    pub agent_type: String,
    pub total_tips_sent: u64,
    pub tip_count: u32,
    pub reputation_score: u32,
    pub is_active: bool,
}

} // verus!
