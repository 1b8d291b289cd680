//! The locomotion executor: walking, running and sneaking over ground.

use vstd::prelude::*;
use vstd::seq_lib::lemma_concat_associative;
use crate::ace_state::AceState;
use crate::input::all_where;
use crate::input::count_where;
use crate::input::Held;
use crate::input::InputCommand;
use crate::input::InputScript;
use crate::input::Key;
use crate::input::lemma_all_add;
use crate::input::lemma_count_add;
use crate::input::lemma_count_none;
use crate::input::lemma_count_one;
use crate::instructions::Instruction;
use crate::step::is_faithful;
use crate::step::lemma_starting_is_faithful;
use crate::step::lemma_stopping_is_faithful;
use crate::step::Step;
use crate::timing::RUN_START_AT;
use crate::timing::SNEAK_END_AT;
use crate::timing::TICKRATE_MS;
use crate::timing::WALK_START_AT;
use crate::try_action::stop;
use crate::try_action;

verus! {

/// Whether locomotion gives way to orientation: the instruction wants the
/// agent to face its heading before it moves, and the agent is still
/// turning.
pub open spec fn yields_to_turning(state: AceState, instruction: Instruction) -> bool {
    instruction.rotate_before_walk && state.is_turning
}

/// Giving way: walking, running and sneaking stop.
pub open spec fn stand_down(step: Step) -> Step {
    step.stop_walk().stop_run(TICKRATE_MS).stop_sneak()
}

/// Walking: an agent that does not walk starts to, and one that walks
/// stops when closer than `WALK_START_AT`.
pub open spec fn walk_phase(step: Step, distance: u64) -> Step {
    if !step.state.is_walking {
        step.walk()
    } else if distance < WALK_START_AT {
        step.stop_walk()
    } else {
        step
    }
}

/// Running, if the instruction allows it: the agent runs from
/// `RUN_START_AT` on and stops running below it.
pub open spec fn run_phase(step: Step, instruction: Instruction, distance: u64) -> Step {
    if !instruction.allow_run {
        step
    } else if distance < RUN_START_AT {
        step.stop_run(TICKRATE_MS)
    } else {
        step.run()
    }
}

/// Sneaking, if the instruction allows it: the agent sneaks up to
/// `SNEAK_END_AT` and stops sneaking beyond it.
pub open spec fn sneak_phase(step: Step, instruction: Instruction, distance: u64) -> Step {
    if !instruction.allow_sneak {
        step
    } else if distance > SNEAK_END_AT {
        step.stop_sneak()
    } else {
        step.sneak()
    }
}

/// What the locomotion executor does when `distance` is left to go: it
/// gives way to orientation ([`stand_down`]) and does nothing else, or it
/// sees to walking, running and sneaking, in this order.
pub open spec fn walk_step(state: AceState, instruction: Instruction, distance: u64) -> Step {
    if yields_to_turning(state, instruction) {
        stand_down(Step::start(state))
    } else {
        sneak_phase(
            run_phase(walk_phase(Step::start(state), distance), instruction, distance),
            instruction,
            distance,
        )
    }
}

/// Every phase is true to the input device.
proof fn lemma_phases_keep_agreement(
    step: Step,
    instruction: Instruction,
    distance: u64,
    held: Held,
)
    requires
        is_faithful(step, held),
    ensures
        is_faithful(stand_down(step), held),
        is_faithful(walk_phase(step, distance), held),
        is_faithful(run_phase(step, instruction, distance), held),
        is_faithful(sneak_phase(step, instruction, distance), held),
{
    lemma_starting_is_faithful(step, held);
    lemma_stopping_is_faithful(step, held, TICKRATE_MS);
    lemma_stopping_is_faithful(step.stop_walk(), held, TICKRATE_MS);
    lemma_stopping_is_faithful(step.stop_walk().stop_run(TICKRATE_MS), held, TICKRATE_MS);
}

/// The locomotion executor is true to the input device: it presses no
/// key that is down, and its flags say which keys it leaves down.
pub proof fn lemma_walk_is_faithful(
    state: AceState,
    instruction: Instruction,
    distance: u64,
    held: Held,
)
    requires
        state.agrees_with(held),
    ensures
        is_faithful(walk_step(state, instruction, distance), held),
{
    let start = Step::start(state);
    let walked = walk_phase(start, distance);
    let ran = run_phase(walked, instruction, distance);
    lemma_phases_keep_agreement(start, instruction, distance, held);
    lemma_phases_keep_agreement(walked, instruction, distance, held);
    lemma_phases_keep_agreement(ran, instruction, distance, held);
}

/// Whether `command` is one the locomotion executor may issue: a pause, or
/// a press or a release of the forward key, the run modifier or the sneak
/// key.
pub open spec fn is_locomotion(command: InputCommand) -> bool {
    ||| command is Wait
    ||| command == InputCommand::KeyDown(Key::W)
    ||| command == InputCommand::KeyUp(Key::W)
    ||| command == InputCommand::KeyDown(Key::Control)
    ||| command == InputCommand::KeyUp(Key::Control)
    ||| command == InputCommand::KeyDown(Key::Shift)
    ||| command == InputCommand::KeyUp(Key::Shift)
}

/// Whether all of `commands` are ones the locomotion executor may issue.
pub open spec fn all_locomotion(commands: Seq<InputCommand>) -> bool {
    all_where(commands, |c| is_locomotion(c))
}

/// What the held channels of ground movement issue are locomotion
/// commands.
proof fn lemma_channels_are_locomotion(state: AceState, tick: u64)
    ensures
        all_locomotion(try_action::walk_commands(state)),
        all_locomotion(try_action::run_commands(state)),
        all_locomotion(try_action::sneak_commands(state)),
        all_locomotion(stop::walk_commands(state)),
        all_locomotion(stop::run_commands(state, tick)),
        all_locomotion(stop::sneak_commands(state)),
{
    reveal(all_where);
}

/// Every phase issues locomotion commands only.
proof fn lemma_phases_are_locomotion(step: Step, instruction: Instruction, distance: u64)
    requires
        all_locomotion(step.commands),
    ensures
        all_locomotion(stand_down(step).commands),
        all_locomotion(walk_phase(step, distance).commands),
        all_locomotion(run_phase(step, instruction, distance).commands),
        all_locomotion(sneak_phase(step, instruction, distance).commands),
{
    let wanted = |c: InputCommand| is_locomotion(c);
    lemma_channels_are_locomotion(step.state, TICKRATE_MS);
    lemma_all_add(step.commands, try_action::walk_commands(step.state), wanted);
    lemma_all_add(step.commands, try_action::run_commands(step.state), wanted);
    lemma_all_add(step.commands, try_action::sneak_commands(step.state), wanted);
    lemma_all_add(step.commands, stop::walk_commands(step.state), wanted);
    lemma_all_add(step.commands, stop::run_commands(step.state, TICKRATE_MS), wanted);
    lemma_all_add(step.commands, stop::sneak_commands(step.state), wanted);
    let first = step.stop_walk();
    lemma_channels_are_locomotion(first.state, TICKRATE_MS);
    lemma_all_add(first.commands, stop::run_commands(first.state, TICKRATE_MS), wanted);
    let second = first.stop_run(TICKRATE_MS);
    lemma_channels_are_locomotion(second.state, TICKRATE_MS);
    lemma_all_add(second.commands, stop::sneak_commands(second.state), wanted);
}

/// The locomotion executor issues nothing but pauses, presses and releases
/// of the forward key, the run modifier and the sneak key.
pub proof fn lemma_walk_is_locomotion(state: AceState, instruction: Instruction, distance: u64)
    ensures
        all_locomotion(walk_step(state, instruction, distance).commands),
{
    let start = Step::start(state);
    let walked = walk_phase(start, distance);
    let ran = run_phase(walked, instruction, distance);
    assert(all_locomotion(start.commands)) by {
        reveal(all_where);
    }
    lemma_phases_are_locomotion(start, instruction, distance);
    lemma_phases_are_locomotion(walked, instruction, distance);
    lemma_phases_are_locomotion(ran, instruction, distance);
}

/// The locomotion executor changes nothing but the flags of walking,
/// running and sneaking.
pub proof fn lemma_walk_touches_its_flags_only(
    state: AceState,
    instruction: Instruction,
    distance: u64,
)
    ensures
        walk_step(state, instruction, distance).state == (AceState {
            is_walking: walk_step(state, instruction, distance).state.is_walking,
            is_running: walk_step(state, instruction, distance).state.is_running,
            is_sneaking: walk_step(state, instruction, distance).state.is_sneaking,
            ..state
        }),
{
}

/// Whether `command` presses the run modifier.
pub open spec fn presses_run(command: InputCommand) -> bool {
    command == InputCommand::KeyDown(Key::Control)
}

/// Where running is allowed and the distance calls for it, the agent runs
/// after the event, and the run modifier is pressed exactly if it was not
/// down before: once for an agent that starts to run, never for one that
/// runs already.
pub proof fn lemma_run_starts_once(state: AceState, instruction: Instruction, distance: u64)
    requires
        instruction.allow_run,
        distance >= RUN_START_AT,
        !yields_to_turning(state, instruction),
    ensures
        walk_step(state, instruction, distance).state.is_running,
        count_where(walk_step(state, instruction, distance).commands, |c| presses_run(c)) == (
        if state.is_running {
            0nat
        } else {
            1nat
        }),
{
    let wanted = |c: InputCommand| presses_run(c);
    let walked = walk_phase(Step::start(state), distance);
    let ran = walked.run();
    lemma_count_none(walked.commands, wanted);
    lemma_count_add(walked.commands, try_action::run_commands(walked.state), wanted);
    if state.is_running {
        lemma_count_none(try_action::run_commands(walked.state), wanted);
    } else {
        lemma_count_one(try_action::run_commands(walked.state), wanted, 0);
    }
    let sneaking = if !instruction.allow_sneak {
        seq![]
    } else if distance > SNEAK_END_AT {
        stop::sneak_commands(ran.state)
    } else {
        try_action::sneak_commands(ran.state)
    };
    lemma_count_none(sneaking, wanted);
    lemma_count_add(ran.commands, sneaking, wanted);
    assert(sneak_phase(ran, instruction, distance).commands == ran.commands + sneaking);
}

/// Whether the held channels are where an event at `distance` wants them,
/// so that the event has nothing to do.
pub open spec fn is_settled(state: AceState, instruction: Instruction, distance: u64) -> bool {
    if yields_to_turning(state, instruction) {
        !state.is_walking && !state.is_running && !state.is_sneaking
    } else {
        &&& state.is_walking
        &&& distance >= WALK_START_AT
        &&& instruction.allow_run ==> (state.is_running <==> distance >= RUN_START_AT)
        &&& instruction.allow_sneak ==> (state.is_sneaking <==> distance <= SNEAK_END_AT)
    }
}

/// An event at a distance at which a walking agent goes on walking leaves
/// the held channels where it wants them.
pub proof fn lemma_walk_settles(state: AceState, instruction: Instruction, distance: u64)
    requires
        distance >= WALK_START_AT,
    ensures
        is_settled(walk_step(state, instruction, distance).state, instruction, distance),
        walk_step(state, instruction, distance).state.is_turning == state.is_turning,
{
}

/// An event that finds the held channels where it wants them issues no
/// input and changes nothing.
pub proof fn lemma_settled_walk_is_silent(state: AceState, instruction: Instruction, distance: u64)
    requires
        is_settled(state, instruction, distance),
    ensures
        walk_step(state, instruction, distance) == Step::start(state),
{
    let start = Step::start(state);
    if yields_to_turning(state, instruction) {
        assert(start.stop_walk() == start);
        assert(start.stop_run(TICKRATE_MS) == start);
        assert(start.stop_sneak() == start);
    } else {
        assert(start.stop_run(TICKRATE_MS) == start <== !state.is_running);
        assert(start.run() == start <== state.is_running);
        assert(start.stop_sneak() == start <== !state.is_sneaking);
        assert(start.sneak() == start <== state.is_sneaking);
    }
}

/// An event that repeats the one before it, at a distance at which a
/// walking agent goes on walking, issues no input and changes nothing:
/// no key is pressed or released twice.
pub proof fn lemma_repeated_walk_is_silent(state: AceState, instruction: Instruction, distance: u64)
    requires
        distance >= WALK_START_AT,
    ensures
        walk_step(walk_step(state, instruction, distance).state, instruction, distance)
            == Step::start(walk_step(state, instruction, distance).state),
{
    lemma_walk_settles(state, instruction, distance);
    lemma_settled_walk_is_silent(
        walk_step(state, instruction, distance).state,
        instruction,
        distance,
    );
}

/// Handles a locomotion event.
pub fn handle_walk(
    script: &mut InputScript,
    ace_state: &mut AceState,
    instruction: &Instruction,
    distance: u64,
)
    ensures
        final(script)@ == old(script)@ + walk_step(*old(ace_state), *instruction, distance).commands,
        *final(ace_state) == walk_step(*old(ace_state), *instruction, distance).state,
{
    let ghost base = script@;
    let ghost mut step = Step::start(*ace_state);
    assert(script@ == base + step.commands);
    if instruction.rotate_before_walk && ace_state.is_turning {
        stop::walk(ace_state, script);
        proof {
            lemma_concat_associative(base, step.commands, stop::walk_commands(step.state));
            step = step.stop_walk();
        }
        stop::run(ace_state, script, TICKRATE_MS);
        proof {
            lemma_concat_associative(
                base,
                step.commands,
                stop::run_commands(step.state, TICKRATE_MS),
            );
            step = step.stop_run(TICKRATE_MS);
        }
        stop::sneak(ace_state, script);
        proof {
            lemma_concat_associative(base, step.commands, stop::sneak_commands(step.state));
            step = step.stop_sneak();
        }
        return ;
    }
    if ace_state.is_walking {
        if distance < WALK_START_AT {
            stop::walk(ace_state, script);
            proof {
                lemma_concat_associative(base, step.commands, stop::walk_commands(step.state));
                step = step.stop_walk();
            }
        }
    } else {
        try_action::walk(ace_state, script);
        proof {
            lemma_concat_associative(base, step.commands, try_action::walk_commands(step.state));
            step = step.walk();
        }
    }
    assert(step == walk_phase(Step::start(*old(ace_state)), distance));
    if instruction.allow_run {
        if distance < RUN_START_AT {
            stop::run(ace_state, script, TICKRATE_MS);
            proof {
                lemma_concat_associative(
                    base,
                    step.commands,
                    stop::run_commands(step.state, TICKRATE_MS),
                );
                step = step.stop_run(TICKRATE_MS);
            }
        } else {
            try_action::run(ace_state, script);
            proof {
                lemma_concat_associative(base, step.commands, try_action::run_commands(step.state));
                step = step.run();
            }
        }
    }
    if instruction.allow_sneak {
        if distance > SNEAK_END_AT {
            stop::sneak(ace_state, script);
            proof {
                lemma_concat_associative(base, step.commands, stop::sneak_commands(step.state));
                step = step.stop_sneak();
            }
        } else {
            try_action::sneak(ace_state, script);
            proof {
                lemma_concat_associative(
                    base,
                    step.commands,
                    try_action::sneak_commands(step.state),
                );
                step = step.sneak();
            }
        }
    }
}

} // verus!
