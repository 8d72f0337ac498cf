use vstd::prelude::*;
use crate::errors::ErrorCode;
use crate::state::AccountId;
use crate::state::PlatformConfig;
use crate::state::FEE_DENOMINATOR;
use crate::state::MAX_FEE_BPS;

verus! {

/// Builds the platform's singleton record at initialization: the given fee
/// and minimum, the fixed denominator, not paused, all counters at zero, and
/// no top tipper yet. The host must not admit a fee above 10%, the same
/// bound every later fee update enforces.
pub fn initialize(authority: AccountId, platform_fee: u16, min_tip_amount: u64) -> (cfg:
    PlatformConfig)
    requires
        platform_fee <= MAX_FEE_BPS,
    ensures
        cfg.authority == authority,
        cfg.platform_fee == platform_fee,
        cfg.fee_denominator == FEE_DENOMINATOR,
        cfg.min_tip_amount == min_tip_amount,
        !cfg.paused,
        cfg.total_creators == 0,
        cfg.total_tips == 0,
        cfg.total_volume == 0,
        cfg.top_tipper == (AccountId { id: 0 }),
        cfg.top_tip_amount == 0,
        cfg.wf(),
{
    PlatformConfig {
        authority,
        platform_fee,
        fee_denominator: FEE_DENOMINATOR,
        min_tip_amount,
        paused: false,
        total_creators: 0,
        total_tips: 0,
        total_volume: 0,
        top_tipper: AccountId { id: 0 },
        top_tip_amount: 0,
    }
}

/// Flips the platform's circuit breaker; nothing else changes. The host must
/// have checked that the caller is the platform authority.
pub fn set_paused(cfg: &mut PlatformConfig, paused: bool)
    ensures
        *final(cfg) == (PlatformConfig { paused, ..*old(cfg) }),
{
    cfg.paused = paused;
}

/// Replaces the platform fee rate, rejecting anything above 10%; nothing
/// else changes, and nothing changes at all on rejection. The host must have
/// checked that the caller is the platform authority.
pub fn update_platform_fee(cfg: &mut PlatformConfig, new_fee: u16) -> (r: Result<(), ErrorCode>)
    ensures
        r is Ok <==> new_fee <= MAX_FEE_BPS,
        r is Err ==> r == Err::<(), ErrorCode>(ErrorCode::FeeTooHigh) && *final(cfg) == *old(cfg),
        r is Ok ==> *final(cfg) == (PlatformConfig { platform_fee: new_fee, ..*old(cfg) }),
        old(cfg).wf() ==> final(cfg).wf(),
{
    if new_fee > MAX_FEE_BPS {
        return Err(ErrorCode::FeeTooHigh);
    }
    cfg.platform_fee = new_fee;
    Ok(())
}

/// Replaces the minimum tip amount; nothing else changes. The host must have
/// checked that the caller is the platform authority.
pub fn update_min_tip(cfg: &mut PlatformConfig, new_min: u64)
    ensures
        *final(cfg) == (PlatformConfig { min_tip_amount: new_min, ..*old(cfg) }),
{
    cfg.min_tip_amount = new_min;
}

} // verus!
