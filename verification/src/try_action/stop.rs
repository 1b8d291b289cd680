//! Releasing the held channels of ground movement: each function acts only
//! if the state says the input is asserted.

use vstd::prelude::*;
use crate::ace_state::AceState;
use crate::input::InputCommand;
use crate::input::InputScript;
use crate::input::Key;

verus! {

/// What [`walk`] appends: a release of the forward key, if it is down.
pub open spec fn walk_commands(state: AceState) -> Seq<InputCommand> {
    if state.is_walking {
        seq![InputCommand::KeyUp(Key::W)]
    } else {
        seq![]
    }
}

/// The state [`walk`] leaves.
pub open spec fn walk_state(state: AceState) -> AceState {
    AceState { is_walking: false, ..state }
}

/// Stops walking, if the agent is walking.
pub fn walk(ace_state: &mut AceState, script: &mut InputScript)
    ensures
        final(script)@ == old(script)@ + walk_commands(*old(ace_state)),
        *final(ace_state) == walk_state(*old(ace_state)),
{
    if ace_state.is_walking {
        script.key_up(Key::W);
        ace_state.is_walking = false;
    }
}

/// What [`sneak`] appends: a release of the sneak key, if it is down.
pub open spec fn sneak_commands(state: AceState) -> Seq<InputCommand> {
    if state.is_sneaking {
        seq![InputCommand::KeyUp(Key::Shift)]
    } else {
        seq![]
    }
}

/// The state [`sneak`] leaves.
pub open spec fn sneak_state(state: AceState) -> AceState {
    AceState { is_sneaking: false, ..state }
}

/// Stops sneaking, if the agent is sneaking.
pub fn sneak(ace_state: &mut AceState, script: &mut InputScript)
    ensures
        final(script)@ == old(script)@ + sneak_commands(*old(ace_state)),
        *final(ace_state) == sneak_state(*old(ace_state)),
{
    if ace_state.is_sneaking {
        script.key_up(Key::Shift);
        ace_state.is_sneaking = false;
    }
}

/// What [`run`] appends for a tick of `tick` milliseconds. A running agent
/// releases the run modifier. If it goes on walking, it also lets go of the
/// forward key for a tick and presses it again, with a tick's pause after:
/// without that the agent would keep its running pace.
pub open spec fn run_commands(state: AceState, tick: u64) -> Seq<InputCommand> {
    if !state.is_running {
        seq![]
    } else if state.is_walking {
        seq![
            InputCommand::KeyUp(Key::Control),
            InputCommand::KeyUp(Key::W),
            InputCommand::Wait(tick),
            InputCommand::KeyDown(Key::W),
            InputCommand::Wait(tick),
        ]
    } else {
        seq![InputCommand::KeyUp(Key::Control)]
    }
}

/// The state [`run`] leaves.
pub open spec fn run_state(state: AceState) -> AceState {
    AceState { is_running: false, ..state }
}

/// Stops running, if the agent is running. `tickrate_ms` is the length of a
/// tick.
pub fn run(ace_state: &mut AceState, script: &mut InputScript, tickrate_ms: u64)
    ensures
        final(script)@ == old(script)@ + run_commands(*old(ace_state), tickrate_ms),
        *final(ace_state) == run_state(*old(ace_state)),
{
    if ace_state.is_running {
        script.key_up(Key::Control);
        if ace_state.is_walking {
            script.key_up(Key::W);
            script.wait(tickrate_ms);
            script.key_down(Key::W);
            script.wait(tickrate_ms);
        }
        ace_state.is_running = false;
    }
}

} // verus!
