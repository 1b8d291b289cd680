//! The control loop: what one tick makes of the telemetry and the
//! instruction at the head of the queue.
//!
//! The loop itself, with its clock, belongs to the caller. Each tick it has
//! the bearing from the agent to the head instruction's destination
//! computed, calls [`ControlLoop::tick`], and delivers what comes back.

use vstd::prelude::*;
use crate::dispatch::is_deliverable;
use crate::fixed::check_range;
use crate::fixed::in_range;
use crate::handlers::message::Message;
use crate::instructions::Action;
use crate::instructions::Instruction;
use crate::instructions::Looking;
use crate::minecraft_resource::MinecraftResource;
use crate::timing::DISTANCE_TO_FINISH_INSTRUCTION;
use crate::timing::LOOK_DOWN_PITCH;
use crate::timing::MAX_FORCE;
use crate::timing::SETTLE_MS;
use crate::vectors::angle_force;
use crate::vectors::CalculateAngleForce;
use crate::vectors::HALF_TURN;
use crate::vectors::lemma_angle_force_bounded;
use crate::vectors::Vector3D;

verus! {

/// A message and the delay after which it is to be delivered, in
/// milliseconds.
#[derive(Debug, PartialEq, Eq)]
pub struct Emission {
    pub after_ms: u64,
    pub message: Message,
}

impl Clone for Emission {
    fn clone(&self) -> (out: Self)
        ensures
            out == *self,
    {
        Emission { after_ms: self.after_ms, message: self.message.clone() }
    }
}

/// The heading error: how far the agent's yaw is off the heading it
/// should keep, in thousandths of a degree. `bearing` is the heading from
/// the agent to its destination; there is none where the agent stands on
/// its destination.
///
/// Looking to the front, the agent should keep the bearing. Looking back,
/// it should keep the opposite of the bearing; half a turn is added to a
/// negative error and taken from any other, which is the shorter way
/// round. Either way, without a bearing there is nothing to turn to, and
/// the error is zero. Looking in a fixed direction, the agent should keep
/// that direction, wherever the destination lies.
pub open spec fn heading_error(looking: Looking, yaw: i64, bearing: Option<i64>) -> int {
    match (looking, bearing) {
        (Looking::Direction(heading), _) => yaw - heading,
        (_, None) => 0,
        (Looking::Front, Some(towards)) => yaw - towards,
        (Looking::Back, Some(towards)) => if yaw - towards < 0 {
            yaw - towards + HALF_TURN
        } else {
            yaw - towards - HALF_TURN
        },
    }
}

/// The pitch the agent should keep: downwards if the instruction says so,
/// level otherwise.
pub open spec fn pitch_target(instruction: Instruction) -> int {
    if instruction.look_downwards {
        LOOK_DOWN_PITCH as int
    } else {
        0
    }
}

/// The heading correction of a tick: both errors, each mapped to a force
/// of at most `MAX_FORCE` either way.
pub open spec fn head_movement(
    instruction: Instruction,
    resource: MinecraftResource,
    bearing: Option<i64>,
) -> Message {
    Message::HeadMovement {
        horizontal_force: angle_force(
            heading_error(instruction.looking, resource.player_head.yaw, bearing),
            MAX_FORCE as int,
            -MAX_FORCE,
        ) as i32,
        vertical_force: angle_force(
            resource.player_head.y - pitch_target(instruction),
            MAX_FORCE as int,
            -MAX_FORCE,
        ) as i32,
    }
}

/// The distance left from where the snapshot has the agent to the
/// instruction's destination, seen from above.
pub open spec fn distance_left(instruction: Instruction, resource: MinecraftResource) -> int {
    let position = resource.player_position;
    Vector3D { x: position.x, y: position.y, z: position.z }.planar_distance(
        &instruction.destination,
    )
}

/// The movement event of a tick: for the flight executor if the
/// instruction flies, for the locomotion executor otherwise.
pub open spec fn movement(instruction: Instruction, distance: u64) -> Message {
    match instruction.action {
        Action::Fly => Message::FlyHorizontal { instruction, distance },
        _ => Message::Walk { distance, instruction },
    }
}

/// Whether the agent has arrived: it is closer than
/// `DISTANCE_TO_FINISH_INSTRUCTION` to the destination, seen from above.
pub open spec fn arrives(instruction: Instruction, resource: MinecraftResource) -> bool {
    distance_left(instruction, resource) < DISTANCE_TO_FINISH_INSTRUCTION
}

/// What a tick emits for the instruction at the head of the queue, in
/// order: the heading correction, the hand event, the movement event and
/// the vertical event, all at once; and, if the agent has arrived, the
/// instruction's end, to be delivered `SETTLE_MS` later.
pub open spec fn tick_emissions(
    instruction: Instruction,
    resource: MinecraftResource,
    bearing: Option<i64>,
) -> Seq<Emission> {
    let at_once = seq![
        Emission { after_ms: 0, message: head_movement(instruction, resource, bearing) },
        Emission { after_ms: 0, message: Message::Hand(instruction) },
        Emission {
            after_ms: 0,
            message: movement(instruction, distance_left(instruction, resource) as u64),
        },
        Emission {
            after_ms: 0,
            message: Message::FlyVertical {
                instruction,
                distance: (resource.player_position.y - instruction.destination.y) as i64,
            },
        },
    ];
    if arrives(instruction, resource) {
        at_once.push(
            Emission { after_ms: SETTLE_MS, message: Message::InstructionFinished(instruction) },
        )
    } else {
        at_once
    }
}

/// Whether the destinations and headings of all of `instructions` are
/// quantities the engine works with.
pub open spec fn all_in_range(instructions: Seq<Instruction>) -> bool {
    forall|i: int| 0 <= i < instructions.len() ==> (#[trigger] instructions[i]).in_range()
}

/// Whether a tick can work with this snapshot and this bearing: all their
/// quantities are ones the engine works with.
pub open spec fn is_usable(resource: MinecraftResource, bearing: Option<i64>) -> bool {
    resource.in_range() && (bearing matches Some(towards) ==> in_range(towards as int))
}

/// The queue of a control loop: all its instructions in the order in which
/// they are carried out, and how many of them are complete.
pub struct Queue {
    pub instructions: Seq<Instruction>,
    pub completed: nat,
}

impl Queue {
    /// Whether no instruction is left.
    pub open spec fn is_drained(self) -> bool {
        self.completed >= self.instructions.len()
    }

    /// The instruction in progress.
    pub open spec fn head(self) -> Instruction
        recommends
            !self.is_drained(),
    {
        self.instructions[self.completed as int]
    }

    /// Whether a tick has work to do: an instruction is left, and the
    /// snapshot and the bearing can be worked with. A tick without work is
    /// left out: it emits nothing and changes nothing.
    pub open spec fn works(self, resource: MinecraftResource, bearing: Option<i64>) -> bool {
        !self.is_drained() && is_usable(resource, bearing)
    }

    /// What a tick emits.
    pub open spec fn emissions(self, resource: MinecraftResource, bearing: Option<i64>) -> Seq<Emission> {
        if self.works(resource, bearing) {
            tick_emissions(self.head(), resource, bearing)
        } else {
            seq![]
        }
    }

    /// The queue after a tick: the head instruction is complete if the
    /// tick has work to do and the agent has arrived; nothing else changes.
    pub open spec fn after_tick(self, resource: MinecraftResource, bearing: Option<i64>) -> Queue {
        if self.works(resource, bearing) && arrives(self.head(), resource) {
            Queue { completed: self.completed + 1, ..self }
        } else {
            self
        }
    }

    /// The queue after one tick for each of `readings`, in order. A reading
    /// is a snapshot and the bearing that goes with it.
    pub open spec fn after_ticks(self, readings: Seq<(MinecraftResource, Option<i64>)>) -> Queue
        decreases readings.len(),
    {
        if readings.len() == 0 {
            self
        } else {
            self.after_ticks(readings.drop_last()).after_tick(readings.last().0, readings.last().1)
        }
    }
}

/// Ticks never bring an instruction back: the number of completed
/// instructions does not go down, and the instructions stay what they
/// are.
pub proof fn lemma_queue_only_advances(queue: Queue, readings: Seq<(MinecraftResource, Option<i64>)>)
    ensures
        queue.after_ticks(readings).completed >= queue.completed,
        queue.after_ticks(readings).instructions == queue.instructions,
    decreases readings.len(),
{
    if readings.len() > 0 {
        lemma_queue_only_advances(queue, readings.drop_last());
    }
}

/// An instruction is completed on the very tick on which the agent
/// arrives, and no later tick has it at the head of the queue again,
/// whatever the later readings are.
pub proof fn lemma_arrival_is_final(
    queue: Queue,
    arrival: MinecraftResource,
    bearing: Option<i64>,
    later: Seq<(MinecraftResource, Option<i64>)>,
)
    requires
        queue.works(arrival, bearing),
        arrives(queue.head(), arrival),
    ensures
        queue.after_tick(arrival, bearing).completed == queue.completed + 1,
        queue.after_tick(arrival, bearing).after_ticks(later).completed > queue.completed,
{
    lemma_queue_only_advances(queue.after_tick(arrival, bearing), later);
}

/// Whatever a tick emits can be dispatched: its forces are bounded by
/// `MAX_FORCE`.
pub proof fn lemma_emissions_are_deliverable(
    queue: Queue,
    resource: MinecraftResource,
    bearing: Option<i64>,
    at: int,
)
    requires
        0 <= at < queue.emissions(resource, bearing).len(),
    ensures
        is_deliverable(queue.emissions(resource, bearing)[at].message),
        queue.emissions(resource, bearing)[at].message matches Message::HeadMovement {
            horizontal_force,
            vertical_force,
        } ==> -MAX_FORCE <= horizontal_force <= MAX_FORCE && -MAX_FORCE <= vertical_force
            <= MAX_FORCE,
{
    let instruction = queue.head();
    lemma_angle_force_bounded(
        heading_error(instruction.looking, resource.player_head.yaw, bearing),
        MAX_FORCE as int,
        -MAX_FORCE,
    );
    lemma_angle_force_bounded(
        resource.player_head.y - pitch_target(instruction),
        MAX_FORCE as int,
        -MAX_FORCE,
    );
}

/// The state of the control loop.
pub struct ControlLoop {
    instructions: Vec<Instruction>,
    completed: usize,
}

impl View for ControlLoop {
    type V = Queue;

    closed spec fn view(&self) -> Queue {
        Queue { instructions: self.instructions@, completed: self.completed as nat }
    }
}

impl ControlLoop {
    #[verifier::type_invariant]
    spec fn well_formed(&self) -> bool {
        &&& self.completed <= self.instructions.len()
        &&& forall|i: int|
            0 <= i < self.instructions.len() ==> (#[trigger] self.instructions[i]).in_range()
    }

    /// A loop that carries out `instructions` from the first to the last.
    /// There is none if the destination or the heading of an instruction is
    /// not a quantity the engine works with.
    pub fn new(instructions: Vec<Instruction>) -> (out: Option<Self>)
        ensures
            out is Some <==> all_in_range(instructions@),
            out matches Some(control) ==> control@ == (Queue {
                instructions: instructions@,
                completed: 0,
            }),
    {
        let mut checked: usize = 0;
        while checked < instructions.len()
            invariant
                checked <= instructions.len(),
                forall|i: int| 0 <= i < checked ==> (#[trigger] instructions[i]).in_range(),
            decreases instructions.len() - checked,
        {
            if !instructions[checked].check_range() {
                return None;
            }
            checked += 1;
        }
        Some(ControlLoop { instructions, completed: 0 })
    }

    /// Whether no instruction is left.
    pub fn is_drained(&self) -> (out: bool)
        ensures
            out == self@.is_drained(),
    {
        self.completed >= self.instructions.len()
    }

    /// The instruction in progress, if one is left.
    pub fn head(&self) -> (out: Option<&Instruction>)
        ensures
            self@.is_drained() ==> out is None,
            !self@.is_drained() ==> out == Some(&self@.head()),
    {
        if self.completed < self.instructions.len() {
            Some(&self.instructions[self.completed])
        } else {
            None
        }
    }

    /// The number of instructions not yet complete.
    pub fn remaining(&self) -> (out: usize)
        ensures
            out == self@.instructions.len() - self@.completed,
            self@.completed <= self@.instructions.len(),
    {
        proof {
            use_type_invariant(self);
        }
        self.instructions.len() - self.completed
    }

    /// One tick. `resource` is the latest snapshot, `bearing` the heading
    /// from the agent to the head instruction's destination, in thousandths
    /// of a degree; there is none where the agent stands on the
    /// destination.
    ///
    /// Returns what is to be delivered, and completes the head instruction
    /// if the agent has arrived. A drained loop does nothing, and a tick
    /// whose snapshot or bearing cannot be worked with is left out.
    pub fn tick(&mut self, resource: &MinecraftResource, bearing: Option<i64>) -> (out: Vec<Emission>)
        ensures
            out@ == old(self)@.emissions(*resource, bearing),
            final(self)@ == old(self)@.after_tick(*resource, bearing),
    {
        proof {
            use_type_invariant(&*self);
        }
        let mut out: Vec<Emission> = Vec::new();
        let towards_fits: bool = match bearing {
            Some(towards) => check_range(towards),
            None => true,
        };
        if self.completed >= self.instructions.len() || !resource.check_range() || !towards_fits {
            return out;
        }
        let instruction: &Instruction = &self.instructions[self.completed];
        assert(instruction.in_range());
        let me = Vector3D::from(resource.player_position);
        let yaw: i64 = resource.player_head.yaw;
        let error: i64 = match (instruction.looking, bearing) {
            (Looking::Direction(heading), _) => yaw - heading,
            (_, None) => 0,
            (Looking::Front, Some(towards)) => yaw - towards,
            (Looking::Back, Some(towards)) => if yaw - towards < 0 {
                yaw - towards + HALF_TURN
            } else {
                yaw - towards - HALF_TURN
            },
        };
        let target: i64 = if instruction.look_downwards { LOOK_DOWN_PITCH } else { 0 };
        let horizontal_force: i32 = error.calculate_angle_force(MAX_FORCE, -MAX_FORCE);
        let vertical_force: i32 = (resource.player_head.y - target).calculate_angle_force(
            MAX_FORCE,
            -MAX_FORCE,
        );
        let distance: u64 = me.distance_to(&instruction.destination);
        let height: i64 = me.y_distance_to(&instruction.destination);
        out.push(
            Emission { after_ms: 0, message: Message::HeadMovement { horizontal_force, vertical_force } },
        );
        out.push(Emission { after_ms: 0, message: Message::Hand(instruction.clone()) });
        let moving = match instruction.action {
            Action::Fly => Message::FlyHorizontal { instruction: instruction.clone(), distance },
            _ => Message::Walk { distance, instruction: instruction.clone() },
        };
        out.push(Emission { after_ms: 0, message: moving });
        out.push(
            Emission {
                after_ms: 0,
                message: Message::FlyVertical { instruction: instruction.clone(), distance: height },
            },
        );
        if distance < DISTANCE_TO_FINISH_INSTRUCTION {
            out.push(
                Emission {
                    after_ms: SETTLE_MS,
                    message: Message::InstructionFinished(instruction.clone()),
                },
            );
            self.completed = self.completed + 1;
        }
        out
    }
}

} // verus!
