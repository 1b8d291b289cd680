//! The hand executor: slot selection, the hand-stack macro and the held
//! secondary button.

use vstd::prelude::*;
use vstd::seq_lib::lemma_concat_associative;
use crate::ace_state::AceState;
use crate::input::count_where;
use crate::input::Held;
use crate::input::InputCommand;
use crate::input::InputScript;
use crate::input::Key;
use crate::input::lemma_after_all_push;
use crate::input::lemma_all_new_push;
use crate::input::lemma_count_add;
use crate::input::lemma_count_none;
use crate::input::lemma_count_one;
use crate::input::MouseButton;
use crate::instructions::Instruction;
use crate::step::is_faithful;
use crate::step::lemma_macro_is_faithful;
use crate::step::lemma_sparing_is_faithful;
use crate::step::Step;
use crate::timing::TICKRATE_MS;
use crate::try_action;

verus! {

/// Whether the secondary button is to be pressed now: the instruction asks
/// for it, it is not down yet, and the agent neither turns nor changes
/// height.
pub open spec fn presses_right_click(state: AceState, instruction: Instruction) -> bool {
    &&& instruction.repeat_right_click
    &&& !state.is_pressing_right_click
    &&& !state.is_turning
    &&& !state.is_moving
}

/// What the hand executor does with an event for `instruction`.
///
/// It selects the instruction's hand slot unless that has been done since
/// the last instruction finished; runs the hand-stack macro if the
/// instruction asks for it and it has not run since; and presses the
/// secondary button as [`presses_right_click`] says.
pub open spec fn hand_step(state: AceState, instruction: Instruction) -> Step {
    let start = Step::start(state);
    let selected = if state.hand_slot_changed {
        start
    } else {
        Step {
            state: AceState { hand_slot_changed: true, ..state },
            commands: seq![InputCommand::KeyClick(Key::Layout(instruction.hand_slot))],
        }
    };
    let reset = if instruction.reset_hand_stack {
        selected.reset_hand_stack(TICKRATE_MS)
    } else {
        selected
    };
    if presses_right_click(reset.state, instruction) {
        Step {
            state: AceState { is_pressing_right_click: true, ..reset.state },
            commands: reset.commands.push(InputCommand::MouseDown(MouseButton::Right)),
        }
    } else {
        reset
    }
}

/// The hand executor is true to the input device.
pub proof fn lemma_hand_is_faithful(state: AceState, instruction: Instruction, held: Held)
    requires
        state.agrees_with(held),
    ensures
        is_faithful(hand_step(state, instruction), held),
{
    let start = Step::start(state);
    let selected = if state.hand_slot_changed {
        start
    } else {
        Step {
            state: AceState { hand_slot_changed: true, ..state },
            commands: seq![InputCommand::KeyClick(Key::Layout(instruction.hand_slot))],
        }
    };
    lemma_sparing_is_faithful(selected, held);
    lemma_macro_is_faithful(selected, held, TICKRATE_MS);
    let reset = if instruction.reset_hand_stack {
        selected.reset_hand_stack(TICKRATE_MS)
    } else {
        selected
    };
    lemma_after_all_push(held, reset.commands, InputCommand::MouseDown(MouseButton::Right));
    lemma_all_new_push(held, reset.commands, InputCommand::MouseDown(MouseButton::Right));
}

/// Whether `command` selects a hand slot.
pub open spec fn selects_slot(command: InputCommand) -> bool {
    command matches InputCommand::KeyClick(Key::Layout(_))
}

/// A hand event selects the slot once if that is still to be done, and
/// never if it has been done; afterwards it has been done.
pub proof fn lemma_hand_selects_once(state: AceState, instruction: Instruction)
    ensures
        hand_step(state, instruction).state.hand_slot_changed,
        count_where(hand_step(state, instruction).commands, |c| selects_slot(c)) == (
        if state.hand_slot_changed {
            0nat
        } else {
            1nat
        }),
{
    let wanted = |c: InputCommand| selects_slot(c);
    let start = Step::start(state);
    let selected = if state.hand_slot_changed {
        start
    } else {
        Step {
            state: AceState { hand_slot_changed: true, ..state },
            commands: seq![InputCommand::KeyClick(Key::Layout(instruction.hand_slot))],
        }
    };
    if state.hand_slot_changed {
        lemma_count_none(selected.commands, wanted);
    } else {
        lemma_count_one(selected.commands, wanted, 0);
    }
    let macro_part = if instruction.reset_hand_stack {
        try_action::reset_hand_stack_commands(selected.state, TICKRATE_MS)
    } else {
        seq![]
    };
    lemma_count_none(macro_part, wanted);
    lemma_count_add(selected.commands, macro_part, wanted);
    let reset = if instruction.reset_hand_stack {
        selected.reset_hand_stack(TICKRATE_MS)
    } else {
        selected
    };
    assert(reset.commands == selected.commands + macro_part);
    let press = if presses_right_click(reset.state, instruction) {
        seq![InputCommand::MouseDown(MouseButton::Right)]
    } else {
        seq![]
    };
    lemma_count_none(press, wanted);
    lemma_count_add(reset.commands, press, wanted);
    assert(hand_step(state, instruction).commands == reset.commands + press);
}

/// Handles a hand event.
pub fn handle_hand(script: &mut InputScript, ace_state: &mut AceState, instruction: Instruction)
    ensures
        final(script)@ == old(script)@ + hand_step(*old(ace_state), instruction).commands,
        *final(ace_state) == hand_step(*old(ace_state), instruction).state,
{
    let ghost base = script@;
    let ghost mut step = Step::start(*ace_state);
    assert(script@ == base + step.commands);
    if !ace_state.hand_slot_changed {
        script.key_click(Key::Layout(instruction.hand_slot));
        ace_state.hand_slot_changed = true;
        proof {
            step = Step {
                state: *ace_state,
                commands: seq![InputCommand::KeyClick(Key::Layout(instruction.hand_slot))],
            };
            assert(script@ == base + step.commands);
        }
    }
    if instruction.reset_hand_stack {
        try_action::reset_hand_stack(ace_state, script, TICKRATE_MS);
        proof {
            lemma_concat_associative(
                base,
                step.commands,
                try_action::reset_hand_stack_commands(step.state, TICKRATE_MS),
            );
            step = step.reset_hand_stack(TICKRATE_MS);
        }
    }
    if instruction.repeat_right_click && !ace_state.is_pressing_right_click
        && !ace_state.is_turning && !ace_state.is_moving {
        script.mouse_down(MouseButton::Right);
        ace_state.is_pressing_right_click = true;
        proof {
            assert(script@ == base + step.commands.push(
                InputCommand::MouseDown(MouseButton::Right),
            ));
        }
    }
}

} // verus!
