use tipchain_agent::admin::{initialize, set_paused, update_min_tip, update_platform_fee};
use tipchain_agent::errors::ErrorCode;
use tipchain_agent::fees::split_fee;
use tipchain_agent::state::AccountId;
use tipchain_agent::streak::evaluate_streak;

#[test]
fn fee_split_basic() {
    // 2.5% platform fee on a gross tip of 1000.
    let (fee, net) = split_fee(1000, 250, 10000);
    assert_eq!(fee, 25);
    assert_eq!(net, 975);
}

#[test]
fn fee_split_zero_rate() {
    let (fee, net) = split_fee(123_456_789, 0, 10000);
    assert_eq!(fee, 0);
    assert_eq!(net, 123_456_789);
}

#[test]
fn fee_split_max_rate() {
    let (fee, net) = split_fee(1000, 1000, 10000);
    assert_eq!(fee, 100);
    assert_eq!(net, 900);
}

#[test]
fn fee_split_rounds_down() {
    // 999 * 250 / 10000 = 24.975, rounded down.
    let (fee, net) = split_fee(999, 250, 10000);
    assert_eq!(fee, 24);
    assert_eq!(net, 975);
}

#[test]
fn fee_split_large_amount() {
    let gross: u64 = 1_000_000_000_000_000;
    let (fee, net) = split_fee(gross, 250, 10000);
    assert_eq!(fee, 25_000_000_000_000);
    assert_eq!(net, 975_000_000_000_000);
    assert_eq!(fee + net, gross);
}

#[test]
fn fee_split_never_exceeds_gross() {
    let (fee, net) = split_fee(u64::MAX, 1000, 10000);
    assert_eq!(fee, u64::MAX / 10);
    assert_eq!(fee + net, u64::MAX);
    assert!(fee <= u64::MAX);
}

#[test]
fn streak_extends_within_window() {
    let (next, milestone) = evaluate_streak(100_000, 100_000 + 3600, 1);
    assert_eq!(next, 2);
    assert!(!milestone);
}

#[test]
fn streak_extends_twice() {
    let (first, _) = evaluate_streak(0, 10_000, 1);
    assert_eq!(first, 2);
    let (second, _) = evaluate_streak(10_000, 20_000, first);
    assert_eq!(second, 3);
}

#[test]
fn streak_unchanged_between_24h_and_48h() {
    // 30 hours elapsed: neither extension nor reset.
    let (next, milestone) = evaluate_streak(0, 30 * 3600, 7);
    assert_eq!(next, 7);
    assert!(!milestone);
}

#[test]
fn streak_unchanged_at_exactly_24h() {
    let (next, milestone) = evaluate_streak(0, 86400, 3);
    assert_eq!(next, 3);
    assert!(!milestone);
}

#[test]
fn streak_resets_at_exactly_48h() {
    let (next, milestone) = evaluate_streak(0, 172800, 9);
    assert_eq!(next, 1);
    assert!(!milestone);
}

#[test]
fn streak_resets_after_long_gap() {
    let (next, milestone) = evaluate_streak(0, 50 * 3600, 7);
    assert_eq!(next, 1);
    assert!(!milestone);
}

#[test]
fn streak_milestone_at_five() {
    let (next, milestone) = evaluate_streak(0, 36_000, 4);
    assert_eq!(next, 5);
    assert!(milestone);
}

#[test]
fn streak_no_milestone_at_six() {
    let (next, milestone) = evaluate_streak(0, 36_000, 5);
    assert_eq!(next, 6);
    assert!(!milestone);
}

#[test]
fn streak_milestone_at_ten() {
    let (next, milestone) = evaluate_streak(0, 36_000, 9);
    assert_eq!(next, 10);
    assert!(milestone);
}

#[test]
fn streak_reset_from_multiple_of_five_no_milestone() {
    // Resetting from a streak of 4 lands on 1, never on a multiple of 5.
    let (next, milestone) = evaluate_streak(0, 200_000, 4);
    assert_eq!(next, 1);
    assert!(!milestone);
}

#[test]
fn initialize_sets_all_fields() {
    let cfg = initialize(AccountId { id: 9 }, 250, 10);
    assert_eq!(cfg.authority, AccountId { id: 9 });
    assert_eq!(cfg.platform_fee, 250);
    assert_eq!(cfg.fee_denominator, 10000);
    assert_eq!(cfg.min_tip_amount, 10);
    assert!(!cfg.paused);
    assert_eq!(cfg.total_creators, 0);
    assert_eq!(cfg.total_tips, 0);
    assert_eq!(cfg.total_volume, 0);
    assert_eq!(cfg.top_tipper, AccountId { id: 0 });
    assert_eq!(cfg.top_tip_amount, 0);
}

#[test]
fn set_paused_flips_only_the_flag() {
    let mut cfg = initialize(AccountId { id: 9 }, 250, 10);
    set_paused(&mut cfg, true);
    assert!(cfg.paused);
    assert_eq!(cfg.platform_fee, 250);
    set_paused(&mut cfg, false);
    assert!(!cfg.paused);
}

#[test]
fn update_platform_fee_accepts_up_to_ten_percent() {
    let mut cfg = initialize(AccountId { id: 9 }, 250, 10);
    assert!(update_platform_fee(&mut cfg, 1000).is_ok());
    assert_eq!(cfg.platform_fee, 1000);
}

#[test]
fn update_platform_fee_rejects_above_ten_percent() {
    let mut cfg = initialize(AccountId { id: 9 }, 250, 10);
    let r = update_platform_fee(&mut cfg, 1001);
    assert_eq!(r.unwrap_err(), ErrorCode::FeeTooHigh);
    assert_eq!(cfg.platform_fee, 250);
}

#[test]
fn update_min_tip_overwrites() {
    let mut cfg = initialize(AccountId { id: 9 }, 250, 10);
    update_min_tip(&mut cfg, 5000);
    assert_eq!(cfg.min_tip_amount, 5000);
}
