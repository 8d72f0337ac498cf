use vstd::prelude::*;

verus! {

/// A gap below this many seconds (24 hours) between two tips extends the
/// streak.
pub const STREAK_EXTEND_WINDOW: i64 = 86400;

/// A gap of at least this many seconds (48 hours) resets the streak to 1.
pub const STREAK_RESET_GAP: i64 = 172800;

/// A streak milestone is reported whenever an incremented streak lands on a
/// multiple of this.
pub const MILESTONE_STEP: u32 = 5;

/// The streak after a tip that arrives `elapsed` seconds after the previous
/// one: extended inside the 24-hour window, reset to 1 from 48 hours on,
/// and left as it was in between.
pub open spec fn spec_next_streak(elapsed: int, prev: int) -> int {
    if elapsed < STREAK_EXTEND_WINDOW {
        prev + 1
    } else if elapsed >= STREAK_RESET_GAP {
        1
    } else {
        prev
    }
}

/// Whether a tip reports a streak milestone: only the increment branch can,
/// and only when the incremented streak is a multiple of 5. A reset never
/// reports one.
pub open spec fn spec_milestone_hit(elapsed: int, prev: int) -> bool {
    elapsed < STREAK_EXTEND_WINDOW && (prev + 1) % (MILESTONE_STEP as int) == 0
}

/// Computes the updated streak and whether this tip crosses a milestone,
/// from the creator's previous last-tip timestamp, the current time, and the
/// previous streak.
pub fn evaluate_streak(last_tip_time: i64, now: i64, prev_streak: u32) -> (r: (u32, bool))
    requires
        0 <= last_tip_time <= now,
        now - last_tip_time < STREAK_EXTEND_WINDOW ==> prev_streak < u32::MAX,
    ensures
        r.0 == spec_next_streak(now - last_tip_time, prev_streak as int),
        r.1 == spec_milestone_hit(now - last_tip_time, prev_streak as int),
{
    let elapsed: i64 = now - last_tip_time;
    if elapsed < STREAK_EXTEND_WINDOW {
        let next: u32 = prev_streak + 1;
        (next, next % MILESTONE_STEP == 0)
    } else if elapsed >= STREAK_RESET_GAP {
        (1, false)
    } else {
        (prev_streak, false)
    }
}

} // verus!
