//! The telemetry snapshot: where the agent stands and where it looks.

use vstd::prelude::*;
use crate::fixed::check_range;
use crate::fixed::in_range;

verus! {

/// Position of the agent, in thousandths of a block.
#[derive(Clone, Copy, Debug, PartialEq, Eq)]
pub struct PlayerPosition {
    pub x: i64,
    pub y: i64,
    pub z: i64,
}

impl From<(i64, i64, i64)> for PlayerPosition {
    fn from(value: (i64, i64, i64)) -> (out: Self) {
        PlayerPosition { x: value.0, y: value.1, z: value.2 }
    }
}

impl vstd::std_specs::convert::FromSpecImpl<(i64, i64, i64)> for PlayerPosition {
    open spec fn obeys_from_spec() -> bool {
        true
    }

    open spec fn from_spec(value: (i64, i64, i64)) -> Self {
        PlayerPosition { x: value.0, y: value.1, z: value.2 }
    }
}

/// Orientation of the agent's head, in thousandths of a degree: `yaw` is the
/// compass heading, `y` stands for the pitch.
#[derive(Clone, Copy, Debug, PartialEq, Eq)]
pub struct PlayerHead {
    pub yaw: i64,
    pub y: i64,
}

/// The latest telemetry received. Nothing older is kept.
#[derive(Clone, Copy, Debug, PartialEq, Eq)]
pub struct MinecraftResource {
    pub player_position: PlayerPosition,
    pub player_head: PlayerHead,
}

impl MinecraftResource {
    /// Whether every quantity of the snapshot is one the engine works with.
    pub open spec fn in_range(&self) -> bool {
        &&& in_range(self.player_position.x as int)
        &&& in_range(self.player_position.y as int)
        &&& in_range(self.player_position.z as int)
        &&& in_range(self.player_head.yaw as int)
        &&& in_range(self.player_head.y as int)
    }

    /// The snapshot before any telemetry has arrived: at the origin, looking
    /// straight ahead along heading zero.
    pub fn new() -> (out: Self)
        ensures
            out.player_position == (PlayerPosition { x: 0, y: 0, z: 0 }),
            out.player_head == (PlayerHead { yaw: 0, y: 0 }),
            out.in_range(),
    {
        MinecraftResource {
            player_position: PlayerPosition { x: 0, y: 0, z: 0 },
            player_head: PlayerHead { yaw: 0, y: 0 },
        }
    }

    /// Whether every quantity of the snapshot lies within the working range.
    pub fn check_range(&self) -> (ok: bool)
        ensures
            ok == self.in_range(),
    {
        check_range(self.player_position.x) && check_range(self.player_position.y)
            && check_range(self.player_position.z) && check_range(self.player_head.yaw)
            && check_range(self.player_head.y)
    }
}

} // verus!
