use vstd::prelude::*;
use vstd::string::StrSliceExecFns;
use crate::errors::ErrorCode;
use crate::events::NewTopTipper;
use crate::events::StreakMilestone;
use crate::events::TipSent;
use crate::fees::spec_fee;
use crate::fees::spec_net;
use crate::fees::split_fee;
use crate::state::AccountId;
use crate::state::Agent;
use crate::state::Creator;
use crate::state::PlatformConfig;
use crate::streak::evaluate_streak;
use crate::streak::spec_milestone_hit;
use crate::streak::spec_next_streak;
use crate::streak::STREAK_EXTEND_WINDOW;

verus! {

/// Longest permitted tip message, in characters.
pub const MAX_MESSAGE_LEN: usize = 280;

/// Whether a tip passes validation: the platform is live, the gross amount
/// reaches the configured minimum, and the message is short enough.
pub open spec fn spec_tip_accepted(cfg: PlatformConfig, amount: u64, message_len: nat) -> bool {
    &&& !cfg.paused
    &&& amount >= cfg.min_tip_amount
    &&& message_len <= MAX_MESSAGE_LEN
}

/// Everything one accepted tip produces for the host: the two amounts to
/// transfer (the net payout to the creator, the fee to the platform's
/// collection account when it is nonzero), the tip record, and the derived
/// records when their conditions fired.
#[derive(Clone, Debug)]
pub struct TipOutcome {
    pub fee: u64,
    pub net: u64,
    pub tip: TipSent,
    pub new_top: Option<NewTopTipper>,
    pub milestone: Option<StreakMilestone>,
}

/// Processes one tip from `tipper` to `creator` at time `now`: validates it
/// against the platform state, splits the gross amount into fee and net,
/// updates the creator and platform statistics, the streak, the top-tip
/// record and, when the tip came through a registered agent, that agent's
/// statistics, and returns the amounts to transfer and the records to log. A
/// rejected tip changes nothing. The host performs the two transfers and, by
/// its all-or-nothing transaction guarantee, discards every state change of
/// the call if either transfer fails.
pub fn tip_creator(
    cfg: &mut PlatformConfig,
    creator: &mut Creator,
    agent: &mut Option<Agent>,
    tipper: AccountId,
    amount: u64,
    message: String,
    payment_proof: String,
    now: i64,
) -> (r: Result<TipOutcome, ErrorCode>)
    requires
        old(cfg).wf(),
        old(creator).wf(),
        spec_tip_accepted(*old(cfg), amount, message@.len()) ==> ({
            &&& old(creator).last_tip_time <= now
            &&& old(creator).total_tips_received + amount <= u64::MAX
            &&& old(creator).tip_count < u32::MAX
            &&& old(cfg).total_tips < u64::MAX
            &&& old(cfg).total_volume + amount <= u64::MAX
            &&& (now - old(creator).last_tip_time < STREAK_EXTEND_WINDOW ==> old(creator).streak
                < u32::MAX)
            &&& (*old(agent) matches Some(a) ==> a.total_tips_sent + amount <= u64::MAX
                && a.tip_count < u32::MAX)
        }),
    ensures
        r is Ok <==> spec_tip_accepted(*old(cfg), amount, message@.len()),
        old(cfg).paused ==> r == Err::<TipOutcome, ErrorCode>(ErrorCode::ContractPaused),
        !old(cfg).paused && amount < old(cfg).min_tip_amount ==> r == Err::<TipOutcome, ErrorCode>(
            ErrorCode::AmountTooSmall,
        ),
        !old(cfg).paused && amount >= old(cfg).min_tip_amount && message@.len() > MAX_MESSAGE_LEN
            ==> r == Err::<TipOutcome, ErrorCode>(ErrorCode::MessageTooLong),
        r is Err ==> *final(cfg) == *old(cfg) && *final(creator) == *old(creator) && *final(agent)
            == *old(agent),
        r matches Ok(o) ==> (match *old(agent) {
            None => *final(agent) is None,
            Some(a) => *final(agent) == Some(
                Agent {
                    total_tips_sent: (a.total_tips_sent + amount) as u64,
                    tip_count: (a.tip_count + 1) as u32,
                    ..a
                },
            ),
        }),
        final(cfg).wf(),
        final(creator).wf(),
        final(creator).streak >= 1,
        r matches Ok(o) ==> ({
            &&& o.fee == spec_fee(amount, old(cfg).platform_fee, old(cfg).fee_denominator)
            &&& o.net == spec_net(amount, old(cfg).platform_fee, old(cfg).fee_denominator)
            &&& o.fee + o.net == amount
            &&& o.fee <= amount
        }),
        r matches Ok(o) ==> ({
            let elapsed = now - old(creator).last_tip_time;
            &&& final(creator).streak == spec_next_streak(elapsed, old(creator).streak as int)
            &&& final(creator).last_tip_time == now
            &&& final(creator).total_tips_received == old(creator).total_tips_received + amount
            &&& final(creator).tip_count == old(creator).tip_count + 1
            &&& final(creator).authority == old(creator).authority
            &&& final(creator).basename@ == old(creator).basename@
            &&& final(creator).display_name@ == old(creator).display_name@
            &&& final(creator).avatar_url@ == old(creator).avatar_url@
            &&& final(creator).reputation_score == old(creator).reputation_score
            &&& final(creator).agent_count == old(creator).agent_count
        }),
        r matches Ok(o) ==> ({
            &&& final(cfg).total_tips == old(cfg).total_tips + 1
            &&& final(cfg).total_volume == old(cfg).total_volume + amount
            &&& final(cfg).authority == old(cfg).authority
            &&& final(cfg).platform_fee == old(cfg).platform_fee
            &&& final(cfg).fee_denominator == old(cfg).fee_denominator
            &&& final(cfg).min_tip_amount == old(cfg).min_tip_amount
            &&& final(cfg).paused == old(cfg).paused
            &&& final(cfg).total_creators == old(cfg).total_creators
        }),
        r matches Ok(o) ==> (if amount > old(cfg).top_tip_amount {
            &&& final(cfg).top_tipper == tipper
            &&& final(cfg).top_tip_amount == amount
            &&& o.new_top == Some(NewTopTipper { tipper, amount, timestamp: now })
        } else {
            &&& final(cfg).top_tipper == old(cfg).top_tipper
            &&& final(cfg).top_tip_amount == old(cfg).top_tip_amount
            &&& o.new_top is None
        }),
        r matches Ok(o) ==> (if spec_milestone_hit(
            now - old(creator).last_tip_time,
            old(creator).streak as int,
        ) {
            o.milestone == Some(
                StreakMilestone {
                    creator: old(creator).authority,
                    streak: final(creator).streak,
                    timestamp: now,
                },
            )
        } else {
            o.milestone is None
        }),
        r matches Ok(o) ==> ({
            &&& o.tip.from == tipper
            &&& o.tip.to == old(creator).authority
            &&& o.tip.amount == amount
            &&& o.tip.amount_after_fee == o.net
            &&& o.tip.fee == o.fee
            &&& o.tip.message@ == message@
            &&& o.tip.payment_proof@ == payment_proof@
            &&& o.tip.timestamp == now
        }),
{
    if cfg.paused {
        return Err(ErrorCode::ContractPaused);
    }
    if amount < cfg.min_tip_amount {
        return Err(ErrorCode::AmountTooSmall);
    }
    if message.as_str().unicode_len() > MAX_MESSAGE_LEN {
        return Err(ErrorCode::MessageTooLong);
    }

    let (fee, net) = split_fee(amount, cfg.platform_fee, cfg.fee_denominator);

    let (new_streak, milestone_hit) = evaluate_streak(creator.last_tip_time, now, creator.streak);
    let milestone = if milestone_hit {
        Some(StreakMilestone { creator: creator.authority, streak: new_streak, timestamp: now })
    } else {
        None
    };

    creator.streak = new_streak;
    creator.last_tip_time = now;
    creator.total_tips_received = creator.total_tips_received + amount;
    creator.tip_count = creator.tip_count + 1;

    cfg.total_tips = cfg.total_tips + 1;
    cfg.total_volume = cfg.total_volume + amount;

    match agent {
        Some(a) => record_agent_tip(a, amount),
        None => {},
    }

    let new_top = if amount > cfg.top_tip_amount {
        cfg.top_tipper = tipper;
        cfg.top_tip_amount = amount;
        Some(NewTopTipper { tipper, amount, timestamp: now })
    } else {
        None
    };

    let tip = TipSent {
        from: tipper,
        to: creator.authority,
        amount,
        amount_after_fee: net,
        fee,
        message,
        payment_proof,
        timestamp: now,
    };
    Ok(TipOutcome { fee, net, tip, new_top, milestone })
}

/// Books an accepted tip on the sending agent's record: the gross amount
/// joins its running total and its tip count grows by one; profile fields
/// stay untouched. The processor applies this exactly when a tip came
/// through a registered agent.
pub fn record_agent_tip(agent: &mut Agent, amount: u64)
    requires
        old(agent).total_tips_sent + amount <= u64::MAX,
        old(agent).tip_count < u32::MAX,
    ensures
        *final(agent) == (Agent {
            total_tips_sent: (old(agent).total_tips_sent + amount) as u64,
            tip_count: (old(agent).tip_count + 1) as u32,
            ..*old(agent)
        }),
{
    agent.total_tips_sent = agent.total_tips_sent + amount;
    agent.tip_count = agent.tip_count + 1;
}

} // verus!
