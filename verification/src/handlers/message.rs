//! The events the control loop emits and the executors consume.

use vstd::prelude::*;
use crate::instructions::Instruction;

verus! {

/// An event for the executors. Distances are in thousandths of a block.
#[derive(Debug, PartialEq, Eq)]
#[allow(inconsistent_fields)]
pub enum Message {
    /// The instruction is complete: release what it holds.
    InstructionFinished(Instruction),
    /// Turn the head by these forces.
    HeadMovement { horizontal_force: i32, vertical_force: i32 },
    /// Prepare the hand as the instruction asks.
    Hand(Instruction),
    /// Move over ground; `distance` is what is left to go, seen from
    /// above.
    Walk { distance: u64, instruction: Instruction },
    /// Move in flight; `distance` is what is left to go, seen from above.
    FlyHorizontal { instruction: Instruction, distance: u64 },
    /// Change height; `distance` is how far the agent is above its
    /// destination, negative when it is below.
    FlyVertical { instruction: Instruction, distance: i64 },
}

impl Clone for Message {
    fn clone(&self) -> (out: Self)
        ensures
            out == *self,
    {
        match self {
            Message::InstructionFinished(instruction) => Message::InstructionFinished(
                instruction.clone(),
            ),
            Message::HeadMovement { horizontal_force, vertical_force } => Message::HeadMovement {
                horizontal_force: *horizontal_force,
                vertical_force: *vertical_force,
            },
            Message::Hand(instruction) => Message::Hand(instruction.clone()),
            Message::Walk { distance, instruction } => Message::Walk {
                distance: *distance,
                instruction: instruction.clone(),
            },
            Message::FlyHorizontal { instruction, distance } => Message::FlyHorizontal {
                instruction: instruction.clone(),
                distance: *distance,
            },
            Message::FlyVertical { instruction, distance } => Message::FlyVertical {
                instruction: instruction.clone(),
                distance: *distance,
            },
        }
    }
}

} // verus!
