use vstd::prelude::*;
use vstd::string::StrSliceExecFns;
use crate::errors::ErrorCode;
use crate::events::AgentRegistered;
use crate::events::CreatorRegistered;
use crate::state::AccountId;
use crate::state::Agent;
use crate::state::Creator;
use crate::state::PlatformConfig;
use crate::state::INITIAL_REPUTATION;

verus! {

/// Longest permitted creator handle, in characters.
pub const MAX_BASENAME_LEN: usize = 20;

/// Longest permitted display name, in characters.
pub const MAX_DISPLAY_NAME_LEN: usize = 50;

/// Longest permitted agent name, in characters.
pub const MAX_AGENT_NAME_LEN: usize = 30;

/// Whether a creator handle is acceptable: 1 to 20 characters.
pub open spec fn spec_valid_basename(name: Seq<char>) -> bool {
    1 <= name.len() <= MAX_BASENAME_LEN
}

/// Whether a display name is acceptable: 1 to 50 characters.
pub open spec fn spec_valid_display_name(name: Seq<char>) -> bool {
    1 <= name.len() <= MAX_DISPLAY_NAME_LEN
}

/// Whether an agent name is acceptable: 1 to 30 characters.
pub open spec fn spec_valid_agent_name(name: Seq<char>) -> bool {
    1 <= name.len() <= MAX_AGENT_NAME_LEN
}

/// Registers a creator: validates the handle and display name, builds the
/// fresh creator record, counts it on the platform record, and returns the
/// registration event for the host's log. Uniqueness of the handle is the
/// host's addressing mechanism's duty, not checked here.
pub fn register_creator(
    cfg: &mut PlatformConfig,
    authority: AccountId,
    basename: String,
    display_name: String,
    avatar_url: String,
    now: i64,
) -> (r: Result<(Creator, CreatorRegistered), ErrorCode>)
    requires
        spec_valid_basename(basename@) && spec_valid_display_name(display_name@)
            ==> old(cfg).total_creators < u64::MAX,
    ensures
        !spec_valid_basename(basename@) ==> r == Err::<(Creator, CreatorRegistered), ErrorCode>(
            ErrorCode::InvalidBasename,
        ),
        spec_valid_basename(basename@) && !spec_valid_display_name(display_name@) ==> r == Err::<
            (Creator, CreatorRegistered),
            ErrorCode,
        >(ErrorCode::InvalidDisplayName),
        r is Ok <==> spec_valid_basename(basename@) && spec_valid_display_name(display_name@),
        r is Err ==> *final(cfg) == *old(cfg),
        r matches Ok((c, ev)) ==> ({
            &&& c.authority == authority
            &&& c.basename@ == basename@
            &&& c.display_name@ == display_name@
            &&& c.avatar_url@ == avatar_url@
            &&& c.total_tips_received == 0
            &&& c.tip_count == 0
            &&& c.last_tip_time == 0
            &&& c.streak == 1
            &&& c.reputation_score == INITIAL_REPUTATION
            &&& c.agent_count == 0
            &&& c.wf()
            &&& ev.creator == authority
            &&& ev.basename@ == basename@
            &&& ev.display_name@ == display_name@
            &&& ev.timestamp == now
            &&& final(cfg).total_creators == old(cfg).total_creators + 1
            &&& final(cfg).authority == old(cfg).authority
            &&& final(cfg).platform_fee == old(cfg).platform_fee
            &&& final(cfg).fee_denominator == old(cfg).fee_denominator
            &&& final(cfg).min_tip_amount == old(cfg).min_tip_amount
            &&& final(cfg).paused == old(cfg).paused
            &&& final(cfg).total_tips == old(cfg).total_tips
            &&& final(cfg).total_volume == old(cfg).total_volume
            &&& final(cfg).top_tipper == old(cfg).top_tipper
            &&& final(cfg).top_tip_amount == old(cfg).top_tip_amount
        }),
{
    let basename_len: usize = basename.as_str().unicode_len();
    if basename_len == 0 || basename_len > MAX_BASENAME_LEN {
        return Err(ErrorCode::InvalidBasename);
    }
    let display_len: usize = display_name.as_str().unicode_len();
    if display_len == 0 || display_len > MAX_DISPLAY_NAME_LEN {
        return Err(ErrorCode::InvalidDisplayName);
    }

    let event = CreatorRegistered {
        creator: authority,
        basename: basename.clone(),
        display_name: display_name.clone(),
        timestamp: now,
    };
    let creator = Creator {
        authority,
        basename,
        display_name,
        avatar_url,
        total_tips_received: 0,
        tip_count: 0,
        last_tip_time: 0,
        streak: 1,
        reputation_score: INITIAL_REPUTATION,
        agent_count: 0,
    };
    cfg.total_creators = cfg.total_creators + 1;
    Ok((creator, event))
}

/// Registers an agent: validates the name, builds the fresh agent record,
/// and returns the registration event for the host's log.
pub fn register_agent(
    authority: AccountId,
    agent_name: String,
    agent_type: String,
    now: i64,
) -> (r: Result<(Agent, AgentRegistered), ErrorCode>)
    ensures
        r is Ok <==> spec_valid_agent_name(agent_name@),
        r is Err ==> r == Err::<(Agent, AgentRegistered), ErrorCode>(ErrorCode::InvalidAgentName),
        r matches Ok((a, ev)) ==> ({
            &&& a.authority == authority
            &&& a.agent_name@ == agent_name@
            &&& a.agent_type@ == agent_type@
            &&& a.total_tips_sent == 0
            &&& a.tip_count == 0
            &&& a.reputation_score == INITIAL_REPUTATION
            &&& a.is_active
            &&& ev.agent == authority
            &&& ev.agent_name@ == agent_name@
            &&& ev.timestamp == now
        }),
{
    let name_len: usize = agent_name.as_str().unicode_len();
    if name_len == 0 || name_len > MAX_AGENT_NAME_LEN {
        return Err(ErrorCode::InvalidAgentName);
    }

    let event = AgentRegistered { agent: authority, agent_name: agent_name.clone(), timestamp: now };
    let agent = Agent {
        authority,
        agent_name,
        agent_type,
        total_tips_sent: 0,
        tip_count: 0,
        reputation_score: INITIAL_REPUTATION,
        is_active: true,
    };
    Ok((agent, event))
}

/// Updates a creator's profile fields. Each optional field, if present, is
/// validated and replaces the old value; absent fields stay untouched. The
/// host must have checked that the caller owns the record. A rejected
/// display name leaves the whole record unchanged.
pub fn update_creator(
    creator: &mut Creator,
    display_name: Option<String>,
    avatar_url: Option<String>,
) -> (r: Result<(), ErrorCode>)
    ensures
        r is Err <==> (display_name matches Some(n) && !spec_valid_display_name(n@)),
        r is Err ==> r == Err::<(), ErrorCode>(ErrorCode::InvalidDisplayName) && *final(creator)
            == *old(creator),
        r is Ok ==> ({
            &&& final(creator).display_name@ == (match display_name {
                Some(n) => n@,
                None => old(creator).display_name@,
            })
            &&& final(creator).avatar_url@ == (match avatar_url {
                Some(u) => u@,
                None => old(creator).avatar_url@,
            })
            &&& final(creator).authority == old(creator).authority
            &&& final(creator).basename@ == old(creator).basename@
            &&& final(creator).total_tips_received == old(creator).total_tips_received
            &&& final(creator).tip_count == old(creator).tip_count
            &&& final(creator).last_tip_time == old(creator).last_tip_time
            &&& final(creator).streak == old(creator).streak
            &&& final(creator).reputation_score == old(creator).reputation_score
            &&& final(creator).agent_count == old(creator).agent_count
        }),
{
    match display_name {
        Some(name) => {
            let name_len: usize = name.as_str().unicode_len();
            if name_len == 0 || name_len > MAX_DISPLAY_NAME_LEN {
                return Err(ErrorCode::InvalidDisplayName);
            }
            creator.display_name = name;
        },
        None => {},
    }
    match avatar_url {
        Some(url) => {
            creator.avatar_url = url;
        },
        None => {},
    }
    Ok(())
}

} // verus!
