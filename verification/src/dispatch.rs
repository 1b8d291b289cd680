//! The dispatcher: every message goes to the executor of its kind.

use vstd::prelude::*;
use crate::ace_state::AceState;
use crate::handlers::finished::finished_step;
use crate::handlers::finished::handle_finished;
use crate::handlers::finished::lemma_finished_is_faithful;
use crate::handlers::fly::fly_horizontal_step;
use crate::handlers::fly::fly_vertical_step;
use crate::handlers::fly::handle_fly_horizontal;
use crate::handlers::fly::handle_fly_vertical;
use crate::handlers::fly::lemma_fly_horizontal_is_faithful;
use crate::handlers::fly::lemma_fly_vertical_is_faithful;
use crate::handlers::hand::hand_step;
use crate::handlers::hand::handle_hand;
use crate::handlers::hand::lemma_hand_is_faithful;
use crate::handlers::hand::lemma_hand_selects_once;
use crate::handlers::hand::selects_slot;
use crate::handlers::head_movement::handle_head_movement;
use crate::handlers::head_movement::head_movement_step;
use crate::handlers::head_movement::lemma_head_movement_is_faithful;
use crate::handlers::message::Message;
use crate::handlers::walk::handle_walk;
use crate::handlers::walk::lemma_run_starts_once;
use crate::handlers::walk::lemma_walk_is_faithful;
use crate::handlers::walk::lemma_walk_is_locomotion;
use crate::handlers::walk::lemma_walk_settles;
use crate::handlers::walk::lemma_walk_touches_its_flags_only;
use crate::handlers::walk::presses_run;
use crate::handlers::walk::walk_step;
use crate::handlers::walk::yields_to_turning;
use crate::input::all_where;
use crate::input::count_where;
use crate::input::Held;
use crate::input::InputCommand;
use crate::input::InputScript;
use crate::input::lemma_after_all_add;
use crate::input::lemma_all_new_add;
use crate::input::lemma_count_add;
use crate::input::lemma_count_none;
use crate::instructions::Instruction;
use crate::step::is_faithful;
use crate::step::Step;
use crate::timing::RUN_START_AT;

verus! {

/// What the executors do with `message` at time `now`.
pub open spec fn dispatch_step(state: AceState, message: Message, now: u64) -> Step {
    match message {
        Message::InstructionFinished(instruction) => finished_step(state, instruction),
        Message::HeadMovement { horizontal_force, vertical_force } => head_movement_step(
            state,
            horizontal_force,
            vertical_force,
        ),
        Message::Hand(instruction) => hand_step(state, instruction),
        Message::Walk { distance, instruction } => walk_step(state, instruction, distance),
        Message::FlyHorizontal { instruction, distance } => fly_horizontal_step(
            state,
            instruction,
            distance,
            now,
        ),
        Message::FlyVertical { instruction, distance } => fly_vertical_step(state, distance, now),
    }
}

/// Whether `message` can be dispatched: the forces of a heading correction
/// must have an opposite, which the least `i32` has not.
pub open spec fn is_deliverable(message: Message) -> bool {
    message matches Message::HeadMovement { horizontal_force, vertical_force } ==> horizontal_force
        > i32::MIN && vertical_force > i32::MIN
}

/// Whether `message` can be dispatched.
pub fn can_deliver(message: &Message) -> (out: bool)
    ensures
        out == is_deliverable(*message),
{
    match message {
        Message::HeadMovement { horizontal_force, vertical_force } => *horizontal_force > i32::MIN
            && *vertical_force > i32::MIN,
        _ => true,
    }
}

/// Hands `message` to its executor at time `now`.
pub fn dispatch(script: &mut InputScript, ace_state: &mut AceState, message: Message, now: u64)
    requires
        is_deliverable(message),
    ensures
        final(script)@ == old(script)@ + dispatch_step(*old(ace_state), message, now).commands,
        *final(ace_state) == dispatch_step(*old(ace_state), message, now).state,
{
    match message {
        Message::InstructionFinished(instruction) => {
            handle_finished(script, ace_state, &instruction);
        },
        Message::HeadMovement { horizontal_force, vertical_force } => {
            handle_head_movement(script, ace_state, horizontal_force, vertical_force);
        },
        Message::Hand(instruction) => {
            handle_hand(script, ace_state, instruction);
        },
        Message::Walk { distance, instruction } => {
            handle_walk(script, ace_state, &instruction, distance);
        },
        Message::FlyHorizontal { instruction, distance } => {
            handle_fly_horizontal(script, ace_state, instruction, distance, now);
        },
        Message::FlyVertical { instruction, distance } => {
            handle_fly_vertical(script, ace_state, instruction, distance, now);
        },
    }
}

/// A message and the time at which it is dispatched.
pub struct Event {
    pub message: Message,
    pub at: u64,
}

/// What the executors do with `events`, dispatched one after the other:
/// the state they end in and all the commands they issue.
pub open spec fn run(state: AceState, events: Seq<Event>) -> Step
    decreases events.len(),
{
    if events.len() == 0 {
        Step::start(state)
    } else {
        let before = run(state, events.drop_last());
        let last = dispatch_step(before.state, events.last().message, events.last().at);
        Step { state: last.state, commands: before.commands + last.commands }
    }
}

/// Every executor is true to the input device: it presses nothing that
/// is pressed, and it leaves the flags of the held channels saying what is
/// pressed.
pub proof fn lemma_dispatch_is_faithful(state: AceState, message: Message, now: u64, held: Held)
    requires
        state.agrees_with(held),
    ensures
        is_faithful(dispatch_step(state, message, now), held),
{
    match message {
        Message::InstructionFinished(instruction) => {
            lemma_finished_is_faithful(state, instruction, held);
        },
        Message::HeadMovement { horizontal_force, vertical_force } => {
            lemma_head_movement_is_faithful(state, horizontal_force, vertical_force, held);
        },
        Message::Hand(instruction) => {
            lemma_hand_is_faithful(state, instruction, held);
        },
        Message::Walk { distance, instruction } => {
            lemma_walk_is_faithful(state, instruction, distance, held);
        },
        Message::FlyHorizontal { instruction, distance } => {
            lemma_fly_horizontal_is_faithful(state, instruction, distance, now, held);
        },
        Message::FlyVertical { instruction, distance } => {
            lemma_fly_vertical_is_faithful(state, distance, now, held);
        },
    }
}

/// Whatever events are dispatched in whatever order, the executors stay
/// true to the input device. No key or button is pressed while it is
/// down; and a flag of a held channel is set if and only if the scripts so
/// far have pressed its key or button and not released it.
pub proof fn lemma_run_is_faithful(state: AceState, events: Seq<Event>, held: Held)
    requires
        state.agrees_with(held),
    ensures
        is_faithful(run(state, events), held),
    decreases events.len(),
{
    if events.len() > 0 {
        let before = run(state, events.drop_last());
        lemma_run_is_faithful(state, events.drop_last(), held);
        let last = dispatch_step(before.state, events.last().message, events.last().at);
        lemma_dispatch_is_faithful(
            before.state,
            events.last().message,
            events.last().at,
            held.after_all(before.commands),
        );
        lemma_after_all_add(held, before.commands, last.commands);
        lemma_all_new_add(held, before.commands, last.commands);
    }
}

/// From the start of a session on, whatever events are dispatched, no
/// key or button is pressed while it is down, and the flags of the held
/// channels say what the scripts have left pressed.
pub proof fn lemma_session_is_faithful(now: u64, events: Seq<Event>)
    ensures
        is_faithful(run(AceState::initial(now), events), Held::nothing()),
{
    lemma_run_is_faithful(AceState::initial(now), events, Held::nothing());
}

/// Whether one of `events` is a hand event.
pub open spec fn has_hand_event(events: Seq<Event>) -> bool {
    exists|i: int| 0 <= i < events.len() && (#[trigger] events[i]).message is Hand
}

/// Whether none of `events` ends an instruction.
pub open spec fn within_one_instruction(events: Seq<Event>) -> bool {
    forall|i: int| 0 <= i < events.len() ==> (#[trigger] events[i]).message !is InstructionFinished
}

/// Between two ends of instructions the hand slot is selected exactly
/// once, however many hand events there are and whatever comes between
/// them, provided there is one at all.
pub proof fn lemma_slot_selected_once(state: AceState, events: Seq<Event>)
    requires
        !state.hand_slot_changed,
        within_one_instruction(events),
    ensures
        run(state, events).state.hand_slot_changed == has_hand_event(events),
        count_where(run(state, events).commands, |c| selects_slot(c)) == (if has_hand_event(
            events,
        ) {
            1nat
        } else {
            0nat
        }),
    decreases events.len(),
{
    let wanted = |c: InputCommand| selects_slot(c);
    if events.len() > 0 {
        let earlier = events.drop_last();
        let before = run(state, earlier);
        let message = events.last().message;
        let last = dispatch_step(before.state, message, events.last().at);
        lemma_slot_selected_once(state, earlier);
        lemma_count_add(before.commands, last.commands, wanted);
        match message {
            Message::Hand(instruction) => {
                lemma_hand_selects_once(before.state, instruction);
                assert(events[events.len() - 1].message is Hand);
            },
            _ => {
                lemma_others_select_nothing(before.state, message, events.last().at);
            },
        }
        if has_hand_event(earlier) {
            let i = choose|i: int| 0 <= i < earlier.len() && (#[trigger] earlier[i]).message is Hand;
            assert(events[i].message is Hand);
        }
        if has_hand_event(events) && !(message is Hand) {
            let i = choose|i: int| 0 <= i < events.len() && (#[trigger] events[i]).message is Hand;
            assert(earlier[i].message is Hand);
        }
    }
}

/// No executor but the hand executor selects a slot, and none but the
/// hand and the finish executor touches the mark that one is selected.
proof fn lemma_others_select_nothing(state: AceState, message: Message, now: u64)
    requires
        message !is Hand,
        message !is InstructionFinished,
    ensures
        dispatch_step(state, message, now).state.hand_slot_changed == state.hand_slot_changed,
        count_where(dispatch_step(state, message, now).commands, |c| selects_slot(c)) == 0,
{
    let wanted = |c: InputCommand| selects_slot(c);
    match message {
        Message::Walk { distance, instruction } => {
            lemma_walk_is_locomotion(state, instruction, distance);
            lemma_walk_touches_its_flags_only(state, instruction, distance);
            reveal(all_where);
        },
        _ => {},
    }
    lemma_count_none(dispatch_step(state, message, now).commands, wanted);
}

/// Whether all of `events` are the same locomotion event.
pub open spec fn repeats_walk(events: Seq<Event>, instruction: Instruction, distance: u64) -> bool {
    forall|i: int|
        0 <= i < events.len() ==> (#[trigger] events[i]).message == (Message::Walk {
            distance,
            instruction,
        })
}

/// An agent that may run and is far enough away starts to run exactly
/// once, however often the same locomotion event is repeated: the run
/// modifier is pressed on the first and on no later one.
pub proof fn lemma_running_starts_once(
    state: AceState,
    events: Seq<Event>,
    instruction: Instruction,
    distance: u64,
)
    requires
        events.len() > 0,
        repeats_walk(events, instruction, distance),
        instruction.allow_run,
        distance >= RUN_START_AT,
        !yields_to_turning(state, instruction),
        !state.is_running,
    ensures
        run(state, events).state.is_running,
        run(state, events).state.is_turning == state.is_turning,
        count_where(run(state, events).commands, |c| presses_run(c)) == 1,
    decreases events.len(),
{
    let wanted = |c: InputCommand| presses_run(c);
    let earlier = events.drop_last();
    let before = run(state, earlier);
    let last = dispatch_step(before.state, events.last().message, events.last().at);
    assert(last == walk_step(before.state, instruction, distance));
    lemma_count_add(before.commands, last.commands, wanted);
    if earlier.len() == 0 {
        lemma_run_starts_once(state, instruction, distance);
        lemma_count_none(before.commands, wanted);
    } else {
        lemma_running_starts_once(state, earlier, instruction, distance);
        lemma_run_starts_once(before.state, instruction, distance);
    }
    lemma_walk_settles(before.state, instruction, distance);
}

} // verus!
