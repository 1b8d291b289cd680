//! The held channels of ground movement and the hand-stack macro: each
//! function acts only if the state says the input is not asserted yet.

pub mod stop;

use vstd::prelude::*;
use crate::ace_state::AceState;
use crate::input::InputCommand;
use crate::input::InputScript;
use crate::input::Key;
use crate::input::MouseButton;

verus! {

/// What [`walk`] appends: a press of the forward key, unless it is down.
pub open spec fn walk_commands(state: AceState) -> Seq<InputCommand> {
    if state.is_walking {
        seq![]
    } else {
        seq![InputCommand::KeyDown(Key::W)]
    }
}

/// The state [`walk`] leaves.
pub open spec fn walk_state(state: AceState) -> AceState {
    AceState { is_walking: true, ..state }
}

/// Starts walking, if the agent is not walking yet.
pub fn walk(ace_state: &mut AceState, script: &mut InputScript)
    ensures
        final(script)@ == old(script)@ + walk_commands(*old(ace_state)),
        *final(ace_state) == walk_state(*old(ace_state)),
{
    if !ace_state.is_walking {
        script.key_down(Key::W);
        ace_state.is_walking = true;
    }
}

/// What [`sneak`] appends: a press of the sneak key, unless it is down.
pub open spec fn sneak_commands(state: AceState) -> Seq<InputCommand> {
    if state.is_sneaking {
        seq![]
    } else {
        seq![InputCommand::KeyDown(Key::Shift)]
    }
}

/// The state [`sneak`] leaves.
pub open spec fn sneak_state(state: AceState) -> AceState {
    AceState { is_sneaking: true, ..state }
}

/// Starts sneaking, if the agent is not sneaking yet.
pub fn sneak(ace_state: &mut AceState, script: &mut InputScript)
    ensures
        final(script)@ == old(script)@ + sneak_commands(*old(ace_state)),
        *final(ace_state) == sneak_state(*old(ace_state)),
{
    if !ace_state.is_sneaking {
        script.key_down(Key::Shift);
        ace_state.is_sneaking = true;
    }
}

/// What [`run`] appends: a press of the run modifier, unless it is down.
pub open spec fn run_commands(state: AceState) -> Seq<InputCommand> {
    if state.is_running {
        seq![]
    } else {
        seq![InputCommand::KeyDown(Key::Control)]
    }
}

/// The state [`run`] leaves.
pub open spec fn run_state(state: AceState) -> AceState {
    AceState { is_running: true, ..state }
}

/// Starts running, if the agent is not running yet.
pub fn run(ace_state: &mut AceState, script: &mut InputScript)
    ensures
        final(script)@ == old(script)@ + run_commands(*old(ace_state)),
        *final(ace_state) == run_state(*old(ace_state)),
{
    if !ace_state.is_running {
        script.key_down(Key::Control);
        ace_state.is_running = true;
    }
}

/// How far each nudge of the hand-stack macro moves the pointer downwards.
pub const STACK_NUDGE: i32 = 32;

/// The hand-stack macro for a tick of `tick` milliseconds: open the
/// container view, nudge the pointer down four times, click three times,
/// close the view.
pub open spec fn stack_macro(tick: u64) -> Seq<InputCommand> {
    seq![
        InputCommand::KeyClick(Key::E),
        InputCommand::Wait((2 * tick) as u64),
        InputCommand::MouseMoveRelative(0, STACK_NUDGE),
        InputCommand::Wait(tick),
        InputCommand::MouseMoveRelative(0, STACK_NUDGE),
        InputCommand::Wait(tick),
        InputCommand::MouseMoveRelative(0, STACK_NUDGE),
        InputCommand::Wait(tick),
        InputCommand::MouseMoveRelative(0, STACK_NUDGE),
        InputCommand::Wait(tick),
        InputCommand::Wait((3 * tick) as u64),
        InputCommand::MouseClick(MouseButton::Left),
        InputCommand::Wait((2 * tick) as u64),
        InputCommand::MouseClick(MouseButton::Left),
        InputCommand::Wait((2 * tick) as u64),
        InputCommand::MouseClick(MouseButton::Left),
        InputCommand::KeyClick(Key::E),
    ]
}

/// What [`reset_hand_stack`] appends: the macro, unless it has run for the
/// instruction in progress.
pub open spec fn reset_hand_stack_commands(state: AceState, tick: u64) -> Seq<InputCommand> {
    if state.hand_stack_reseted {
        seq![]
    } else {
        stack_macro(tick)
    }
}

/// The state [`reset_hand_stack`] leaves.
pub open spec fn reset_hand_stack_state(state: AceState) -> AceState {
    AceState { hand_stack_reseted: true, ..state }
}

/// Runs the hand-stack macro, if it has not run for the instruction in
/// progress. `tickrate_ms` is the length of a tick; three ticks must be a
/// representable time.
pub fn reset_hand_stack(ace_state: &mut AceState, script: &mut InputScript, tickrate_ms: u64)
    requires
        3 * tickrate_ms <= u64::MAX,
    ensures
        final(script)@ == old(script)@ + reset_hand_stack_commands(*old(ace_state), tickrate_ms),
        *final(ace_state) == reset_hand_stack_state(*old(ace_state)),
{
    if !ace_state.hand_stack_reseted {
        script.key_click(Key::E);
        script.wait(2 * tickrate_ms);
        let mut nudges: u8 = 0;
        while nudges < 4
            invariant
                nudges <= 4,
                script@ == old(script)@ + stack_macro(tickrate_ms).subrange(
                    0,
                    2 + 2 * nudges as int,
                ),
            decreases 4 - nudges,
        {
            script.mouse_move_relative(0, STACK_NUDGE);
            script.wait(tickrate_ms);
            nudges += 1;
        }
        script.wait(3 * tickrate_ms);
        script.mouse_click(MouseButton::Left);
        script.wait(2 * tickrate_ms);
        script.mouse_click(MouseButton::Left);
        script.wait(2 * tickrate_ms);
        script.mouse_click(MouseButton::Left);
        script.key_click(Key::E);
        ace_state.hand_stack_reseted = true;
    }
}

} // verus!
