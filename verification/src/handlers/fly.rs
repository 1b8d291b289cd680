//! The flight executors: timed pulses for horizontal flight, and the two
//! vertical channels.

use vstd::prelude::*;
use crate::ace_state::AceState;
use crate::input::Held;
use crate::input::InputCommand;
use crate::input::InputScript;
use crate::input::Key;
use crate::input::lemma_after_all_one;
use crate::input::lemma_all_new_one;
use crate::input::Pulse;
use crate::instructions::Instruction;
use crate::instructions::Looking;
use crate::step::is_faithful;
use crate::step::lemma_sparing_is_faithful;
use crate::step::Step;
use crate::timing::CLIMB_HOLD_MS;
use crate::timing::elapsed;
use crate::timing::elapsed_since;
use crate::timing::TAP_BELOW;
use crate::timing::TICKRATE_MS;
use crate::timing::VERTICAL_DEADBAND;
use crate::timing::VERTICAL_REARM_MS;

verus! {

/// Beyond this distance a flight pulse is boosted, if running is allowed.
pub const BOOST_BEYOND: u64 = 6000;

/// How a flight pulse is shaped: which key it holds, for how long, and
/// how long the channel rests after it. Times are in milliseconds.
#[derive(Clone, Copy, Debug, PartialEq, Eq)]
pub struct FlightPlan {
    pub key: Key,
    pub hold_ms: u64,
    pub rearm_ms: u64,
}

/// The key that moves an agent looking this way towards its destination:
/// forward when it faces it, backward when it faces away, sideways when it
/// keeps a fixed heading.
pub open spec fn flight_key(looking: Looking) -> Key {
    match looking {
        Looking::Front => Key::W,
        Looking::Back => Key::S,
        Looking::Direction(_) => Key::A,
    }
}

/// The number of ticks a flight pulse holds its key, by the way the agent
/// looks and the distance left: longer the farther there is to go.
pub open spec fn flight_hold_ticks(looking: Looking, distance: u64) -> int {
    match looking {
        Looking::Direction(_) => 3,
        Looking::Back => if distance < 3000 { 3 } else { 5 },
        Looking::Front => if distance < 2000 {
            1
        } else if distance < 3000 {
            2
        } else if distance < 6000 {
            3
        } else {
            6
        },
    }
}

/// The number of ticks the flight channel rests after a pulse.
pub open spec fn flight_rearm_ticks(looking: Looking) -> int {
    match looking {
        Looking::Direction(_) => 12,
        _ => 10,
    }
}

/// The pulse for an agent looking this way with `distance` left to go.
pub open spec fn flight_plan(looking: Looking, distance: u64) -> FlightPlan {
    FlightPlan {
        key: flight_key(looking),
        hold_ms: (flight_hold_ticks(looking, distance) * TICKRATE_MS) as u64,
        rearm_ms: (flight_rearm_ticks(looking) * TICKRATE_MS) as u64,
    }
}

/// No pulse outlasts the rest of its channel: a pulse has ended, with at
/// least four ticks to spare, before the next one may start.
pub proof fn lemma_pulse_ends_before_rearm(looking: Looking, distance: u64)
    ensures
        flight_plan(looking, distance).hold_ms + 4 * TICKRATE_MS <= flight_plan(
            looking,
            distance,
        ).rearm_ms,
{
}

/// Chooses the pulse for an agent looking this way with `distance` left.
pub fn plan_flight(looking: Looking, distance: u64) -> (plan: FlightPlan)
    ensures
        plan == flight_plan(looking, distance),
{
    match looking {
        Looking::Direction(_) => FlightPlan {
            key: Key::A,
            hold_ms: 3 * TICKRATE_MS,
            rearm_ms: 12 * TICKRATE_MS,
        },
        Looking::Back => {
            let ticks: u64 = if distance < 3000 { 3 } else { 5 };
            FlightPlan { key: Key::S, hold_ms: ticks * TICKRATE_MS, rearm_ms: 10 * TICKRATE_MS }
        },
        Looking::Front => {
            let ticks: u64 = if distance < 2000 {
                1
            } else if distance < 3000 {
                2
            } else if distance < 6000 {
                3
            } else {
                6
            };
            FlightPlan { key: Key::W, hold_ms: ticks * TICKRATE_MS, rearm_ms: 10 * TICKRATE_MS }
        },
    }
}

/// Whether a flight pulse starts at time `now`: the agent neither turns
/// nor changes height, and the channel has rested since its last pulse.
pub open spec fn starts_flight_pulse(
    state: AceState,
    instruction: Instruction,
    distance: u64,
    now: u64,
) -> bool {
    &&& !state.is_turning
    &&& !state.is_moving
    &&& elapsed_since(state.last_flight, now) >= flight_plan(instruction.looking, distance).rearm_ms
}

/// What the horizontal flight executor does at time `now` with `distance`
/// left to go. If a pulse starts, it is detached, boosted exactly if the
/// instruction allows running and the distance exceeds `BOOST_BEYOND`; the
/// channel's rest begins at `now` and the agent counts as flying.
/// Otherwise nothing happens.
pub open spec fn fly_horizontal_step(
    state: AceState,
    instruction: Instruction,
    distance: u64,
    now: u64,
) -> Step {
    if starts_flight_pulse(state, instruction, distance, now) {
        let plan = flight_plan(instruction.looking, distance);
        Step {
            state: AceState { last_flight: now, is_flying: true, ..state },
            commands: seq![
                InputCommand::Detach(
                    Pulse::Hold {
                        key: plan.key,
                        boost: instruction.allow_run && distance > BOOST_BEYOND,
                        millis: plan.hold_ms,
                    },
                ),
            ],
        }
    } else {
        Step::start(state)
    }
}

/// The horizontal flight executor is true to the input device: it only
/// starts pulses.
pub proof fn lemma_fly_horizontal_is_faithful(
    state: AceState,
    instruction: Instruction,
    distance: u64,
    now: u64,
    held: Held,
)
    requires
        state.agrees_with(held),
    ensures
        is_faithful(fly_horizontal_step(state, instruction, distance, now), held),
{
    lemma_sparing_is_faithful(fly_horizontal_step(state, instruction, distance, now), held);
}

/// Two pulses of the flight channel never overlap: when a pulse has
/// started, no event starts another before the first has ended.
pub proof fn lemma_flight_pulses_apart(
    state: AceState,
    first: Instruction,
    distance: u64,
    now: u64,
    second: Instruction,
    second_distance: u64,
    later: u64,
)
    requires
        starts_flight_pulse(state, first, distance, now),
        now <= later,
        later - now < flight_plan(first.looking, distance).hold_ms,
    ensures
        fly_horizontal_step(
            fly_horizontal_step(state, first, distance, now).state,
            second,
            second_distance,
            later,
        ).commands == Seq::<InputCommand>::empty(),
{
}

/// Handles a horizontal flight event at time `now`.
pub fn handle_fly_horizontal(
    script: &mut InputScript,
    ace_state: &mut AceState,
    instruction: Instruction,
    distance: u64,
    now: u64,
)
    ensures
        final(script)@ == old(script)@ + fly_horizontal_step(
            *old(ace_state),
            instruction,
            distance,
            now,
        ).commands,
        *final(ace_state) == fly_horizontal_step(*old(ace_state), instruction, distance, now).state,
{
    if !ace_state.is_turning && !ace_state.is_moving {
        let plan = plan_flight(instruction.looking, distance);
        if elapsed(ace_state.last_flight, now) >= plan.rearm_ms {
            script.detach(
                Pulse::Hold {
                    key: plan.key,
                    boost: instruction.allow_run && distance > BOOST_BEYOND,
                    millis: plan.hold_ms,
                },
            );
            ace_state.last_flight = now;
            ace_state.is_flying = true;
        }
    }
}

/// The magnitude of a vertical offset.
pub open spec fn offset_magnitude(distance: i64) -> int {
    if distance < 0 { -distance } else { distance as int }
}

/// Whether a vertical offset lies beyond the deadband.
pub open spec fn beyond_deadband(distance: i64) -> bool {
    offset_magnitude(distance) > VERTICAL_DEADBAND
}

/// The pulse that answers a climb of this offset: a tap when less than
/// `TAP_BELOW` is left, a held press otherwise.
pub open spec fn climb_pulse(distance: i64) -> Pulse {
    if offset_magnitude(distance) < TAP_BELOW {
        Pulse::Tap(Key::Space)
    } else {
        Pulse::Hold { key: Key::Space, boost: false, millis: CLIMB_HOLD_MS }
    }
}

/// What the vertical executor does at time `now`, the agent being
/// `distance` above its destination (below, if negative).
///
/// The agent counts as changing height exactly if the offset lies beyond
/// the deadband. If it does and the agent is below, a climb pulse is
/// detached, unless the climb channel fired less than `VERTICAL_REARM_MS`
/// ago; if the agent is above, the descent key is tapped, unless the
/// descent channel fired less than `VERTICAL_REARM_MS` ago. A channel that
/// fires rests from `now` on. The descent key is the sneak key, and the
/// tap leaves it up: after it the agent sneaks no more.
pub open spec fn fly_vertical_step(state: AceState, distance: i64, now: u64) -> Step {
    let settled = AceState { is_moving: beyond_deadband(distance), ..state };
    if !beyond_deadband(distance) {
        Step::start(settled)
    } else if distance < 0 {
        if elapsed_since(state.last_space_press, now) >= VERTICAL_REARM_MS {
            Step {
                state: AceState { last_space_press: now, ..settled },
                commands: seq![InputCommand::Detach(climb_pulse(distance))],
            }
        } else {
            Step::start(settled)
        }
    } else {
        if elapsed_since(state.last_shift_press, now) >= VERTICAL_REARM_MS {
            Step {
                state: AceState { last_shift_press: now, is_sneaking: false, ..settled },
                commands: seq![InputCommand::KeyClick(Key::Shift)],
            }
        } else {
            Step::start(settled)
        }
    }
}

/// The vertical executor is true to the input device: it starts a pulse,
/// or taps the sneak key and counts the agent as sneaking no more.
pub proof fn lemma_fly_vertical_is_faithful(
    state: AceState,
    distance: i64,
    now: u64,
    held: Held,
)
    requires
        state.agrees_with(held),
    ensures
        is_faithful(fly_vertical_step(state, distance, now), held),
{
    let step = fly_vertical_step(state, distance, now);
    if step.commands == seq![InputCommand::KeyClick(Key::Shift)] {
        lemma_after_all_one(held, InputCommand::KeyClick(Key::Shift));
        lemma_all_new_one(held, InputCommand::KeyClick(Key::Shift));
    } else {
        lemma_sparing_is_faithful(step, held);
    }
}

/// Whether the vertical executor fires at time `now`: the offset lies
/// beyond the deadband and the channel for its direction has rested.
pub open spec fn fires_vertical(state: AceState, distance: i64, now: u64) -> bool {
    &&& beyond_deadband(distance)
    &&& elapsed_since(
        if distance < 0 {
            state.last_space_press
        } else {
            state.last_shift_press
        },
        now,
    ) >= VERTICAL_REARM_MS
}

/// A vertical channel rests after it has fired: an event for the same
/// direction that comes less than `VERTICAL_REARM_MS` later issues no
/// input, and one that comes at least that much later fires again.
pub proof fn lemma_vertical_channel_rests(
    state: AceState,
    distance: i64,
    now: u64,
    again: i64,
    later: u64,
)
    requires
        fires_vertical(state, distance, now),
        beyond_deadband(again),
        distance < 0 <==> again < 0,
        now <= later,
    ensures
        later - now < VERTICAL_REARM_MS ==> fly_vertical_step(
            fly_vertical_step(state, distance, now).state,
            again,
            later,
        ).commands == Seq::<InputCommand>::empty(),
        later - now >= VERTICAL_REARM_MS ==> fly_vertical_step(
            fly_vertical_step(state, distance, now).state,
            again,
            later,
        ).commands.len() == 1,
{
}

/// Handles a vertical event at time `now`.
pub fn handle_fly_vertical(
    script: &mut InputScript,
    ace_state: &mut AceState,
    _instruction: Instruction,
    distance: i64,
    now: u64,
)
    ensures
        final(script)@ == old(script)@ + fly_vertical_step(*old(ace_state), distance, now).commands,
        *final(ace_state) == fly_vertical_step(*old(ace_state), distance, now).state,
{
    let beyond: bool = distance > VERTICAL_DEADBAND || distance < -VERTICAL_DEADBAND;
    ace_state.is_moving = beyond;
    if beyond {
        if distance < 0 {
            if elapsed(ace_state.last_space_press, now) >= VERTICAL_REARM_MS {
                let pulse = if distance > -TAP_BELOW {
                    Pulse::Tap(Key::Space)
                } else {
                    Pulse::Hold { key: Key::Space, boost: false, millis: CLIMB_HOLD_MS }
                };
                script.detach(pulse);
                ace_state.last_space_press = now;
            }
        } else {
            if elapsed(ace_state.last_shift_press, now) >= VERTICAL_REARM_MS {
                script.key_click(Key::Shift);
                ace_state.last_shift_press = now;
                ace_state.is_sneaking = false;
            }
        }
    }
}

} // verus!
