use vstd::prelude::*;
use crate::fees::lemma_fee_le_amount;
use crate::fees::spec_fee;
use crate::fees::spec_net;
use crate::state::FEE_DENOMINATOR;
use crate::state::MAX_FEE_BPS;
use crate::streak::spec_milestone_hit;
use crate::streak::spec_next_streak;
use crate::streak::MILESTONE_STEP;
use crate::streak::STREAK_EXTEND_WINDOW;
use crate::streak::STREAK_RESET_GAP;

verus! {

/// Law: for every gross amount and every admissible fee rate, the fee and
/// the net payout add back up to the gross amount, the fee never exceeds the
/// gross amount, and a zero rate charges no fee.
pub proof fn lemma_fee_split_conserves(amount: u64, fee_bps: u16)
    requires
        fee_bps <= MAX_FEE_BPS,
    ensures
        spec_fee(amount, fee_bps, FEE_DENOMINATOR) + spec_net(amount, fee_bps, FEE_DENOMINATOR)
            == amount,
        0 <= spec_fee(amount, fee_bps, FEE_DENOMINATOR) <= amount,
        fee_bps == 0 ==> spec_fee(amount, fee_bps, FEE_DENOMINATOR) == 0,
{
    lemma_fee_le_amount(amount, fee_bps, FEE_DENOMINATOR);
    if fee_bps == 0 {
        assert((amount as int) * 0 == 0);
        assert(0int / (FEE_DENOMINATOR as int) == 0) by (nonlinear_arith);
    }
}

/// Law: a streak never drops below 1, whatever gap separates two tips.
pub proof fn lemma_streak_stays_positive(elapsed: int, prev: int)
    requires
        prev >= 1,
    ensures
        spec_next_streak(elapsed, prev) >= 1,
{
}

/// The streak a creator ends with after a whole sequence of tips, one tip
/// per listed gap, starting from `start`.
pub open spec fn spec_streak_after(gaps: Seq<int>, start: int) -> int
    decreases gaps.len(),
{
    if gaps.len() == 0 {
        start
    } else {
        spec_streak_after(gaps.drop_first(), spec_next_streak(gaps.first(), start))
    }
}

/// Law: over any sequence of tips the streak stays at least 1. Every creator
/// registers with streak 1, so this holds of every reachable creator record.
pub proof fn lemma_streak_positive_over_sequence(gaps: Seq<int>, start: int)
    requires
        start >= 1,
    ensures
        spec_streak_after(gaps, start) >= 1,
    decreases gaps.len(),
{
    if gaps.len() > 0 {
        lemma_streak_stays_positive(gaps.first(), start);
        lemma_streak_positive_over_sequence(gaps.drop_first(), spec_next_streak(gaps.first(), start));
    }
}

/// Law: the three gap ranges act exactly as stated — under 24 hours the
/// streak grows by one, from 48 hours on it resets to 1, and strictly
/// between the two it stays as it was.
pub proof fn lemma_streak_transitions(elapsed: int, prev: int)
    ensures
        elapsed < STREAK_EXTEND_WINDOW ==> spec_next_streak(elapsed, prev) == prev + 1,
        STREAK_EXTEND_WINDOW <= elapsed < STREAK_RESET_GAP ==> spec_next_streak(elapsed, prev)
            == prev,
        elapsed >= STREAK_RESET_GAP ==> spec_next_streak(elapsed, prev) == 1,
{
}

/// Law: a milestone fires exactly when the increment branch runs and the
/// incremented streak is a positive multiple of 5; in particular a reset
/// never fires one, and the streak a milestone reports is at least 5.
pub proof fn lemma_milestone_only_on_increment(elapsed: int, prev: int)
    requires
        prev >= 1,
    ensures
        spec_milestone_hit(elapsed, prev) <==> (spec_next_streak(elapsed, prev) == prev + 1
            && elapsed < STREAK_EXTEND_WINDOW && (prev + 1) % (MILESTONE_STEP as int) == 0),
        spec_milestone_hit(elapsed, prev) ==> spec_next_streak(elapsed, prev)
            >= MILESTONE_STEP as int,
        elapsed >= STREAK_EXTEND_WINDOW ==> !spec_milestone_hit(elapsed, prev),
{
    if spec_milestone_hit(elapsed, prev) {
        let next = prev + 1;
        assert(next >= 2);
        assert(next % (MILESTONE_STEP as int) == 0);
        assert(next >= MILESTONE_STEP as int) by (nonlinear_arith)
            requires
                next >= 2 && next % (MILESTONE_STEP as int) == 0 && MILESTONE_STEP == 5,
        ;
    }
}

} // verus!
