//! The heading executor.

use vstd::prelude::*;
use crate::ace_state::AceState;
use crate::input::Held;
use crate::input::InputCommand;
use crate::input::InputScript;
use crate::step::is_faithful;
use crate::step::lemma_sparing_is_faithful;
use crate::step::Step;

verus! {

/// What the heading executor does with a correction: it moves the pointer
/// against both forces at once, and the agent counts as turning exactly if
/// one of them is not zero.
pub open spec fn head_movement_step(
    state: AceState,
    horizontal_force: i32,
    vertical_force: i32,
) -> Step {
    Step {
        state: AceState { is_turning: horizontal_force != 0 || vertical_force != 0, ..state },
        commands: seq![
            InputCommand::MouseMoveRelative(
                (-horizontal_force) as i32,
                (-vertical_force) as i32,
            ),
        ],
    }
}

/// The heading executor is true to the input device: it presses
/// nothing.
pub proof fn lemma_head_movement_is_faithful(
    state: AceState,
    horizontal_force: i32,
    vertical_force: i32,
    held: Held,
)
    requires
        state.agrees_with(held),
    ensures
        is_faithful(head_movement_step(state, horizontal_force, vertical_force), held),
{
    lemma_sparing_is_faithful(head_movement_step(state, horizontal_force, vertical_force), held);
}

/// Applies a heading correction. Every correction is applied; this channel
/// has no re-arm interval. The forces must have an opposite: the least
/// `i32` has none.
pub fn handle_head_movement(
    script: &mut InputScript,
    ace_state: &mut AceState,
    horizontal_force: i32,
    vertical_force: i32,
)
    requires
        horizontal_force > i32::MIN,
        vertical_force > i32::MIN,
    ensures
        final(script)@ == old(script)@ + head_movement_step(
            *old(ace_state),
            horizontal_force,
            vertical_force,
        ).commands,
        *final(ace_state) == head_movement_step(
            *old(ace_state),
            horizontal_force,
            vertical_force,
        ).state,
{
    script.mouse_move_relative(-horizontal_force, -vertical_force);
    ace_state.is_turning = horizontal_force != 0 || vertical_force != 0;
}

} // verus!
