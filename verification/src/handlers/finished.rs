//! The finish executor: letting go of everything an instruction holds.

use vstd::prelude::*;
use vstd::seq_lib::lemma_concat_associative;
use crate::ace_state::AceState;
use crate::handlers::fly::flight_key;
use crate::input::all_where;
use crate::input::count_where;
use crate::input::Held;
use crate::input::InputCommand;
use crate::input::InputScript;
use crate::input::is_release;
use crate::input::Key;
use crate::input::lemma_after_all_add;
use crate::input::lemma_after_all_one;
use crate::input::lemma_all_add;
use crate::input::lemma_all_new_add;
use crate::input::lemma_all_new_one;
use crate::input::lemma_count_add;
use crate::input::lemma_count_none;
use crate::input::lemma_count_one;
use crate::input::lemma_releases_press_nothing;
use crate::input::MouseButton;
use crate::instructions::Instruction;
use crate::instructions::Looking;
use crate::step::is_faithful;
use crate::step::lemma_stopping_is_faithful;
use crate::step::Step;
use crate::timing::TICKRATE_MS;
use crate::try_action::stop;

verus! {

/// The releases that end a flight: of the run modifier, if the instruction
/// allows running and the modifier has not just been released as part of
/// running; and of the key the instruction flies with, unless it is the
/// forward key and that has just been released as part of walking.
pub open spec fn flight_releases(state: AceState, instruction: Instruction) -> Seq<InputCommand> {
    let modifier = if state.is_flying && instruction.allow_run && !state.is_running {
        seq![InputCommand::KeyUp(Key::Control)]
    } else {
        seq![]
    };
    let key = if state.is_flying && !(state.is_walking && instruction.looking is Front) {
        seq![InputCommand::KeyUp(flight_key(instruction.looking))]
    } else {
        seq![]
    };
    modifier + key
}

/// What the secondary button's release looks like: one, if it is down.
pub open spec fn right_click_release(state: AceState) -> Seq<InputCommand> {
    if state.is_pressing_right_click {
        seq![InputCommand::MouseUp(MouseButton::Right)]
    } else {
        seq![]
    }
}

/// The state in which an instruction leaves the executors: no held channel
/// active, not flying, hand slot and hand stack open for the next
/// instruction. Turning, height and the pulsed channels' rests are left as
/// they are.
pub open spec fn finished_state(state: AceState) -> AceState {
    AceState {
        is_walking: false,
        is_running: false,
        is_sneaking: false,
        is_flying: false,
        is_pressing_right_click: false,
        hand_slot_changed: false,
        hand_stack_reseted: false,
        ..state
    }
}

/// What is released of the held channels: the secondary button, the
/// forward key, the run modifier and the sneak key, each if the state says
/// it is down, in this order.
pub open spec fn held_step(state: AceState) -> Step {
    Step {
        state: AceState { is_pressing_right_click: false, ..state },
        commands: right_click_release(state),
    }.stop_walk().stop_run(TICKRATE_MS).stop_sneak()
}

/// What the finish executor does for `instruction`: it releases the held
/// channels ([`held_step`]), then what a flight may hold
/// ([`flight_releases`]), each key and button at most once.
pub open spec fn finished_step(state: AceState, instruction: Instruction) -> Step {
    Step {
        state: finished_state(state),
        commands: held_step(state).commands + flight_releases(state, instruction),
    }
}

/// Releasing the held channels is true to the input device, and leaves
/// none of their flags set.
proof fn lemma_held_step_is_faithful(state: AceState, held: Held)
    requires
        state.agrees_with(held),
    ensures
        is_faithful(held_step(state), held),
        !held_step(state).state.is_walking,
        !held_step(state).state.is_running,
        !held_step(state).state.is_sneaking,
        !held_step(state).state.is_pressing_right_click,
{
    let first = Step {
        state: AceState { is_pressing_right_click: false, ..state },
        commands: right_click_release(state),
    };
    assert(is_faithful(first, held)) by {
        lemma_after_all_one(held, InputCommand::MouseUp(MouseButton::Right));
        lemma_all_new_one(held, InputCommand::MouseUp(MouseButton::Right));
        assert(held.after_all(Seq::<InputCommand>::empty()) == held);
    }
    let second = first.stop_walk();
    let third = second.stop_run(TICKRATE_MS);
    lemma_stopping_is_faithful(first, held, TICKRATE_MS);
    lemma_stopping_is_faithful(second, held, TICKRATE_MS);
    lemma_stopping_is_faithful(third, held, TICKRATE_MS);
}

/// The finish executor is true to the input device, and leaves none of
/// the held channels pressed.
pub proof fn lemma_finished_is_faithful(state: AceState, instruction: Instruction, held: Held)
    requires
        state.agrees_with(held),
    ensures
        is_faithful(finished_step(state, instruction), held),
        finished_step(state, instruction).state.is_released(),
{
    let released = held_step(state);
    let flight = flight_releases(state, instruction);
    lemma_held_step_is_faithful(state, held);
    lemma_after_all_add(held, released.commands, flight);
    lemma_all_new_add(held, released.commands, flight);
    lemma_releases_press_nothing(held.after_all(released.commands), flight);
}

/// Finishing twice in a row does nothing the second time: no input is
/// issued and the state stays as the first time left it, whatever the two
/// instructions are.
pub proof fn lemma_finished_twice(state: AceState, first: Instruction, second: Instruction)
    ensures
        finished_step(finished_step(state, first).state, second) == Step::start(
            finished_step(state, first).state,
        ),
{
    let once = finished_step(state, first).state;
    assert(held_step(once).commands =~= Seq::<InputCommand>::empty());
    assert(flight_releases(once, second) =~= Seq::<InputCommand>::empty());
    assert(finished_step(once, second).commands =~= Seq::<InputCommand>::empty());
}

/// `command`, if `wanted`, and nothing otherwise.
pub open spec fn optional(wanted: bool, command: InputCommand) -> Seq<InputCommand> {
    if wanted {
        seq![command]
    } else {
        seq![]
    }
}

/// An optional release is a release, and counts once at most, and only as
/// itself.
proof fn lemma_optional_release(wanted: bool, release: InputCommand, command: InputCommand)
    requires
        is_release(release),
    ensures
        all_where(optional(wanted, release), |c| is_release(c)),
        count_where(optional(wanted, release), |c| c == command) == (if wanted && release
            == command {
            1nat
        } else {
            0nat
        }),
{
    reveal(all_where);
    if wanted && release == command {
        lemma_count_one(optional(wanted, release), |c| c == command, 0);
    } else {
        lemma_count_none(optional(wanted, release), |c| c == command);
    }
}

/// The finish executor issues nothing but releases, and none of them
/// twice.
pub proof fn lemma_finished_releases_once(
    state: AceState,
    instruction: Instruction,
    command: InputCommand,
)
    ensures
        all_where(finished_step(state, instruction).commands, |c| is_release(c)),
        count_where(finished_step(state, instruction).commands, |c| c == command) <= 1,
{
    let releases = |c: InputCommand| is_release(c);
    let same = |c: InputCommand| c == command;
    let button = optional(state.is_pressing_right_click, InputCommand::MouseUp(MouseButton::Right));
    let forward = optional(state.is_walking, InputCommand::KeyUp(Key::W));
    let modifier = optional(state.is_running, InputCommand::KeyUp(Key::Control));
    let sneak = optional(state.is_sneaking, InputCommand::KeyUp(Key::Shift));
    let boost = optional(
        state.is_flying && instruction.allow_run && !state.is_running,
        InputCommand::KeyUp(Key::Control),
    );
    let key = optional(
        state.is_flying && !(state.is_walking && instruction.looking is Front),
        InputCommand::KeyUp(flight_key(instruction.looking)),
    );
    lemma_optional_release(
        state.is_pressing_right_click,
        InputCommand::MouseUp(MouseButton::Right),
        command,
    );
    lemma_optional_release(state.is_walking, InputCommand::KeyUp(Key::W), command);
    lemma_optional_release(state.is_running, InputCommand::KeyUp(Key::Control), command);
    lemma_optional_release(state.is_sneaking, InputCommand::KeyUp(Key::Shift), command);
    lemma_optional_release(
        state.is_flying && instruction.allow_run && !state.is_running,
        InputCommand::KeyUp(Key::Control),
        command,
    );
    lemma_optional_release(
        state.is_flying && !(state.is_walking && instruction.looking is Front),
        InputCommand::KeyUp(flight_key(instruction.looking)),
        command,
    );
    lemma_all_add(button, forward, releases);
    lemma_all_add(button + forward, modifier, releases);
    lemma_all_add(button + forward + modifier, sneak, releases);
    lemma_all_add(boost, key, releases);
    lemma_all_add(button + forward + modifier + sneak, boost + key, releases);
    lemma_count_add(button, forward, same);
    lemma_count_add(button + forward, modifier, same);
    lemma_count_add(button + forward + modifier, sneak, same);
    lemma_count_add(boost, key, same);
    lemma_count_add(button + forward + modifier + sneak, boost + key, same);
    assert(right_click_release(state) == button);
    assert(stop::walk_commands(state) == forward);
    assert(held_step(state).commands == button + forward + modifier + sneak);
    assert(flight_releases(state, instruction) == boost + key);
}

/// Releases the held channels.
fn release_held(script: &mut InputScript, ace_state: &mut AceState)
    ensures
        final(script)@ == old(script)@ + held_step(*old(ace_state)).commands,
        *final(ace_state) == held_step(*old(ace_state)).state,
{
    let ghost base = script@;
    if ace_state.is_pressing_right_click {
        script.mouse_up(MouseButton::Right);
        ace_state.is_pressing_right_click = false;
    }
    let ghost mut step = Step {
        state: *ace_state,
        commands: right_click_release(*old(ace_state)),
    };
    assert(script@ == base + step.commands);
    stop::walk(ace_state, script);
    proof {
        lemma_concat_associative(base, step.commands, stop::walk_commands(step.state));
        step = step.stop_walk();
    }
    stop::run(ace_state, script, TICKRATE_MS);
    proof {
        lemma_concat_associative(base, step.commands, stop::run_commands(step.state, TICKRATE_MS));
        step = step.stop_run(TICKRATE_MS);
    }
    stop::sneak(ace_state, script);
    proof {
        lemma_concat_associative(base, step.commands, stop::sneak_commands(step.state));
        step = step.stop_sneak();
    }
}

/// Releases what a flight may hold, given the state before anything was
/// released.
fn release_flight(script: &mut InputScript, before: &AceState, instruction: &Instruction)
    ensures
        final(script)@ == old(script)@ + flight_releases(*before, *instruction),
{
    if before.is_flying {
        if instruction.allow_run && !before.is_running {
            script.key_up(Key::Control);
        }
        match instruction.looking {
            Looking::Front => {
                if !before.is_walking {
                    script.key_up(Key::W);
                }
            },
            Looking::Back => {
                script.key_up(Key::S);
            },
            Looking::Direction(_) => {
                script.key_up(Key::A);
            },
        }
    }
}

/// Handles the end of an instruction.
pub fn handle_finished(script: &mut InputScript, ace_state: &mut AceState, instruction: &Instruction)
    ensures
        final(script)@ == old(script)@ + finished_step(*old(ace_state), *instruction).commands,
        *final(ace_state) == finished_step(*old(ace_state), *instruction).state,
{
    let before: AceState = *ace_state;
    release_held(script, ace_state);
    release_flight(script, &before, instruction);
    proof {
        lemma_concat_associative(
            old(script)@,
            held_step(before).commands,
            flight_releases(before, *instruction),
        );
    }
    ace_state.is_flying = false;
    ace_state.hand_slot_changed = false;
    ace_state.hand_stack_reseted = false;
}

/// The releases that end whatever flight may be under way, its
/// instruction unknown: of the run modifier and of each key a flight may
/// fly with, but for those that have just been released as part of
/// running and walking.
pub open spec fn any_flight_releases(state: AceState) -> Seq<InputCommand> {
    if !state.is_flying {
        seq![]
    } else {
        optional(!state.is_running, InputCommand::KeyUp(Key::Control)) + optional(
            !state.is_walking,
            InputCommand::KeyUp(Key::W),
        ) + seq![InputCommand::KeyUp(Key::S), InputCommand::KeyUp(Key::A)]
    }
}

/// What is done when a session ends, whatever the cause: the held
/// channels are released ([`held_step`]), then what any flight may hold
/// ([`any_flight_releases`]). The state is left as the end of an
/// instruction leaves it.
pub open spec fn teardown_step(state: AceState) -> Step {
    Step {
        state: finished_state(state),
        commands: held_step(state).commands + any_flight_releases(state),
    }
}

/// The end of a session is true to the input device, and leaves none of
/// the held channels pressed.
pub proof fn lemma_teardown_is_faithful(state: AceState, held: Held)
    requires
        state.agrees_with(held),
    ensures
        is_faithful(teardown_step(state), held),
        teardown_step(state).state.is_released(),
{
    let released = held_step(state);
    let flight = any_flight_releases(state);
    lemma_held_step_is_faithful(state, held);
    lemma_after_all_add(held, released.commands, flight);
    lemma_all_new_add(held, released.commands, flight);
    lemma_releases_press_nothing(held.after_all(released.commands), flight);
}

/// Releases what any flight may hold, given the state before anything was
/// released.
fn release_any_flight(script: &mut InputScript, before: &AceState)
    ensures
        final(script)@ == old(script)@ + any_flight_releases(*before),
{
    if before.is_flying {
        if !before.is_running {
            script.key_up(Key::Control);
        }
        if !before.is_walking {
            script.key_up(Key::W);
        }
        script.key_up(Key::S);
        script.key_up(Key::A);
    }
}

/// Handles the end of a session: lets go of everything that may be held.
pub fn handle_teardown(script: &mut InputScript, ace_state: &mut AceState)
    ensures
        final(script)@ == old(script)@ + teardown_step(*old(ace_state)).commands,
        *final(ace_state) == teardown_step(*old(ace_state)).state,
{
    let before: AceState = *ace_state;
    release_held(script, ace_state);
    release_any_flight(script, &before);
    proof {
        lemma_concat_associative(
            old(script)@,
            held_step(before).commands,
            any_flight_releases(before),
        );
    }
    ace_state.is_flying = false;
    ace_state.hand_slot_changed = false;
    ace_state.hand_stack_reseted = false;
}

} // verus!
