//! What an executor does with one event, as a value: the state it leaves and
//! the commands it issues. The executors' contracts are stated as steps, and
//! so are the laws that hold of them.

use vstd::prelude::*;
use crate::ace_state::AceState;
use crate::input::Held;
use crate::input::InputCommand;
use crate::input::Key;
use crate::input::lemma_after_all_add;
use crate::input::lemma_after_all_one;
use crate::input::lemma_after_all_push;
use crate::input::lemma_after_all_sparing;
use crate::input::lemma_all_new_add;
use crate::input::lemma_all_new_one;
use crate::input::lemma_all_new_push;
use crate::input::lemma_all_new_without_presses;
use crate::input::spares_channels;
use crate::try_action::stop;
use crate::try_action;

verus! {

/// A state and the commands issued on the way to it.
pub struct Step {
    pub state: AceState,
    pub commands: Seq<InputCommand>,
}

impl Step {
    /// The step that has done nothing yet.
    pub open spec fn start(state: AceState) -> Step {
        Step { state, commands: seq![] }
    }

    /// This step, followed by [`try_action::walk`].
    pub open spec fn walk(self) -> Step {
        Step {
            state: try_action::walk_state(self.state),
            commands: self.commands + try_action::walk_commands(self.state),
        }
    }

    /// This step, followed by [`try_action::run`].
    pub open spec fn run(self) -> Step {
        Step {
            state: try_action::run_state(self.state),
            commands: self.commands + try_action::run_commands(self.state),
        }
    }

    /// This step, followed by [`try_action::sneak`].
    pub open spec fn sneak(self) -> Step {
        Step {
            state: try_action::sneak_state(self.state),
            commands: self.commands + try_action::sneak_commands(self.state),
        }
    }

    /// This step, followed by [`try_action::reset_hand_stack`].
    pub open spec fn reset_hand_stack(self, tick: u64) -> Step {
        Step {
            state: try_action::reset_hand_stack_state(self.state),
            commands: self.commands + try_action::reset_hand_stack_commands(self.state, tick),
        }
    }

    /// This step, followed by [`stop::walk`].
    pub open spec fn stop_walk(self) -> Step {
        Step {
            state: stop::walk_state(self.state),
            commands: self.commands + stop::walk_commands(self.state),
        }
    }

    /// This step, followed by [`stop::run`].
    pub open spec fn stop_run(self, tick: u64) -> Step {
        Step {
            state: stop::run_state(self.state),
            commands: self.commands + stop::run_commands(self.state, tick),
        }
    }

    /// This step, followed by [`stop::sneak`].
    pub open spec fn stop_sneak(self) -> Step {
        Step {
            state: stop::sneak_state(self.state),
            commands: self.commands + stop::sneak_commands(self.state),
        }
    }
}

/// Whether a step is true to the input device, `held` being pressed before
/// it: none of its commands presses what is pressed by then, and its state
/// agrees with what is pressed once they have been carried out.
pub open spec fn is_faithful(step: Step, held: Held) -> bool {
    &&& held.all_new(step.commands)
    &&& step.state.agrees_with(held.after_all(step.commands))
}

/// Starting a held channel is true to the input device.
pub proof fn lemma_starting_is_faithful(step: Step, held: Held)
    requires
        is_faithful(step, held),
    ensures
        is_faithful(step.walk(), held),
        is_faithful(step.run(), held),
        is_faithful(step.sneak(), held),
{
    let now = held.after_all(step.commands);
    lemma_after_all_add(held, step.commands, try_action::walk_commands(step.state));
    lemma_after_all_add(held, step.commands, try_action::run_commands(step.state));
    lemma_after_all_add(held, step.commands, try_action::sneak_commands(step.state));
    lemma_all_new_add(held, step.commands, try_action::walk_commands(step.state));
    lemma_all_new_add(held, step.commands, try_action::run_commands(step.state));
    lemma_all_new_add(held, step.commands, try_action::sneak_commands(step.state));
    lemma_after_all_one(now, InputCommand::KeyDown(Key::W));
    lemma_after_all_one(now, InputCommand::KeyDown(Key::Control));
    lemma_after_all_one(now, InputCommand::KeyDown(Key::Shift));
    lemma_all_new_one(now, InputCommand::KeyDown(Key::W));
    lemma_all_new_one(now, InputCommand::KeyDown(Key::Control));
    lemma_all_new_one(now, InputCommand::KeyDown(Key::Shift));
}

/// Stopping a held channel is true to the input device.
pub proof fn lemma_stopping_is_faithful(step: Step, held: Held, tick: u64)
    requires
        is_faithful(step, held),
    ensures
        is_faithful(step.stop_walk(), held),
        is_faithful(step.stop_run(tick), held),
        is_faithful(step.stop_sneak(), held),
{
    let now = held.after_all(step.commands);
    lemma_after_all_add(held, step.commands, stop::walk_commands(step.state));
    lemma_after_all_add(held, step.commands, stop::run_commands(step.state, tick));
    lemma_after_all_add(held, step.commands, stop::sneak_commands(step.state));
    lemma_all_new_add(held, step.commands, stop::walk_commands(step.state));
    lemma_all_new_add(held, step.commands, stop::run_commands(step.state, tick));
    lemma_all_new_add(held, step.commands, stop::sneak_commands(step.state));
    lemma_after_all_one(now, InputCommand::KeyUp(Key::W));
    lemma_after_all_one(now, InputCommand::KeyUp(Key::Control));
    lemma_after_all_one(now, InputCommand::KeyUp(Key::Shift));
    lemma_all_new_one(now, InputCommand::KeyUp(Key::W));
    lemma_all_new_one(now, InputCommand::KeyUp(Key::Control));
    lemma_all_new_one(now, InputCommand::KeyUp(Key::Shift));
    if step.state.is_running && step.state.is_walking {
        let released = seq![InputCommand::KeyUp(Key::Control)];
        let let_go = released.push(InputCommand::KeyUp(Key::W));
        let paused = let_go.push(InputCommand::Wait(tick));
        let pressed = paused.push(InputCommand::KeyDown(Key::W));
        let rested = pressed.push(InputCommand::Wait(tick));
        lemma_after_all_push(now, released, InputCommand::KeyUp(Key::W));
        lemma_after_all_push(now, let_go, InputCommand::Wait(tick));
        lemma_after_all_push(now, paused, InputCommand::KeyDown(Key::W));
        lemma_after_all_push(now, pressed, InputCommand::Wait(tick));
        lemma_all_new_push(now, released, InputCommand::KeyUp(Key::W));
        lemma_all_new_push(now, let_go, InputCommand::Wait(tick));
        lemma_all_new_push(now, paused, InputCommand::KeyDown(Key::W));
        lemma_all_new_push(now, pressed, InputCommand::Wait(tick));
        assert(stop::run_commands(step.state, tick) == rested);
    }
}

/// The hand-stack macro is true to the input device: it presses nothing
/// that stays pressed.
pub proof fn lemma_macro_is_faithful(step: Step, held: Held, tick: u64)
    requires
        is_faithful(step, held),
    ensures
        is_faithful(step.reset_hand_stack(tick), held),
{
    let now = held.after_all(step.commands);
    let commands = try_action::reset_hand_stack_commands(step.state, tick);
    lemma_after_all_add(held, step.commands, commands);
    lemma_all_new_add(held, step.commands, commands);
    lemma_after_all_sparing(now, commands);
    lemma_all_new_without_presses(now, commands);
}

/// A step that issues what leaves the held channels alone, and presses
/// nothing, is true to the input device if the state it leaves agrees with
/// what was pressed before.
pub proof fn lemma_sparing_is_faithful(step: Step, held: Held)
    requires
        step.state.agrees_with(held),
        forall|i: int|
            0 <= i < step.commands.len() ==> spares_channels(#[trigger] step.commands[i])
                && step.commands[i] !is KeyDown && step.commands[i] !is MouseDown,
    ensures
        is_faithful(step, held),
{
    lemma_after_all_sparing(held, step.commands);
    lemma_all_new_without_presses(held, step.commands);
}

} // verus!
