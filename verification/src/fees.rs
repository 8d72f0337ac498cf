use vstd::prelude::*;

verus! {

/// The platform's cut of a gross tip: `floor(amount * fee_bps / denom)`.
pub open spec fn spec_fee(amount: u64, fee_bps: u16, denom: u16) -> int {
    (amount as int * fee_bps as int) / (denom as int)
}

/// What the creator is actually paid: the gross amount less the fee.
pub open spec fn spec_net(amount: u64, fee_bps: u16, denom: u16) -> int {
    amount - spec_fee(amount, fee_bps, denom)
}

/// With the rate no larger than the denominator, the rounded-down fee never
/// exceeds the gross amount.
pub proof fn lemma_fee_le_amount(amount: u64, fee_bps: u16, denom: u16)
    requires
        0 < denom,
        fee_bps <= denom,
    ensures
        0 <= spec_fee(amount, fee_bps, denom) <= amount,
{
    assert(0 <= (amount as int * fee_bps as int) / (denom as int) <= amount as int)
        by (nonlinear_arith)
        requires
            0 < denom as int,
            0 <= fee_bps as int <= denom as int,
            0 <= amount as int,
    ;
}

/// Splits a gross tip into the platform fee and the net payout. The
/// intermediate product is taken at 128 bits, so no gross amount can
/// overflow the computation.
pub fn split_fee(amount: u64, fee_bps: u16, denom: u16) -> (r: (u64, u64))
    requires
        0 < denom,
        fee_bps <= denom,
    ensures
        r.0 == spec_fee(amount, fee_bps, denom),
        r.1 == spec_net(amount, fee_bps, denom),
        r.0 + r.1 == amount,
        r.0 <= amount,
        fee_bps == 0 ==> r.0 == 0,
{
    proof {
        lemma_fee_le_amount(amount, fee_bps, denom);
        assert((amount as int) * (fee_bps as int) <= (u64::MAX as int) * (u16::MAX as int))
            by (nonlinear_arith)
            requires
                0 <= amount as int <= u64::MAX as int,
                0 <= fee_bps as int <= u16::MAX as int,
        ;
        if fee_bps == 0 {
            assert((amount as int) * 0 == 0);
            assert(0int / (denom as int) == 0) by (nonlinear_arith)
                requires
                    0 < denom as int,
            ;
        }
    }
    let wide: u128 = (amount as u128) * (fee_bps as u128) / (denom as u128);
    assert(wide == spec_fee(amount, fee_bps, denom));
    let fee: u64 = wide as u64;
    let net: u64 = amount - fee;
    (fee, net)
}

} // verus!
