//! The design constants: the tick, the re-arm intervals and the distance
//! thresholds. Times are in milliseconds, distances in thousandths of a block.

use vstd::prelude::*;

verus! {

/// Length of one tick of the control loop.
pub const TICKRATE_MS: u64 = 60;

/// An instruction is complete once the agent is closer than this to its
/// destination, seen from above.
pub const DISTANCE_TO_FINISH_INSTRUCTION: u64 = 300;

/// How long after completion the inputs of an instruction are released, so
/// that pulses under way can end first.
pub const SETTLE_MS: u64 = 10 * TICKRATE_MS;

/// A walking agent stops once it is closer than this.
pub const WALK_START_AT: u64 = 200;

/// An agent allowed to run does so from this distance on.
pub const RUN_START_AT: u64 = 5000;

/// An agent allowed to sneak does so up to this distance.
pub const SNEAK_END_AT: u64 = 3000;

/// A vertical offset counts only beyond this magnitude.
pub const VERTICAL_DEADBAND: i64 = 250;

/// A climb of less than this is answered with a tap, a longer one with a
/// held press.
pub const TAP_BELOW: i64 = 1500;

/// How long the held press of a climb lasts.
pub const CLIMB_HOLD_MS: u64 = 5 * TICKRATE_MS;

/// The least time between two pulses of a vertical channel.
pub const VERTICAL_REARM_MS: u64 = 10 * TICKRATE_MS;

/// The pitch aimed for when an instruction asks to look downwards, in
/// thousandths of a degree; otherwise the agent looks level, at zero.
pub const LOOK_DOWN_PITCH: i64 = 85_000;

/// Largest pointer force sent in one tick, in either direction.
pub const MAX_FORCE: i32 = 32;

/// The time from `last` to `now`; zero if `now` is the earlier one.
pub open spec fn elapsed_since(last: u64, now: u64) -> int {
    if now >= last { now - last } else { 0 }
}

/// The time from `last` to `now`; zero if `now` is the earlier one.
pub fn elapsed(last: u64, now: u64) -> (out: u64)
    ensures
        out == elapsed_since(last, now),
{
    if now >= last { now - last } else { 0 }
}

} // verus!
