//! The movement state shared by the executors.

use vstd::prelude::*;
use crate::input::Held;
use crate::input::Key;
use crate::input::MouseButton;

verus! {

/// Which control channels are active, and when the pulsed ones last fired.
///
/// A flag of a held channel (`is_walking`, `is_running`, `is_sneaking`,
/// `is_pressing_right_click`) is set exactly while its key or button is
/// pressed by a script; see [`AceState::agrees_with`]. Times are in
/// milliseconds on the caller's monotonic clock.
#[derive(Clone, Copy, Debug, PartialEq, Eq)]
pub struct AceState {
    /// When the last flight pulse was started.
    pub last_flight: u64,
    /// The last heading correction moved the pointer.
    pub is_turning: bool,
    /// The agent is off its destination's height by more than the deadband.
    pub is_moving: bool,
    /// When the last climb pulse was started.
    pub last_space_press: u64,
    /// When the last descent tap was made.
    pub last_shift_press: u64,
    /// The forward key is down.
    pub is_walking: bool,
    /// The run modifier is down.
    pub is_running: bool,
    /// The sneak key is down.
    pub is_sneaking: bool,
    /// A flight pulse has been started since the last instruction finished;
    /// its keys may still be down.
    pub is_flying: bool,
    /// The secondary button is down.
    pub is_pressing_right_click: bool,
    /// The hand slot of the instruction in progress has been selected.
    pub hand_slot_changed: bool,
    /// The hand stack has been reset for the instruction in progress.
    pub hand_stack_reseted: bool,
}

impl AceState {
    /// The state at the start of a session at time `now`: nothing is
    /// pressed, and every pulsed channel counts as having just fired.
    pub fn new(now: u64) -> (out: Self)
        ensures
            out == Self::initial(now),
    {
        AceState {
            last_flight: now,
            last_space_press: now,
            last_shift_press: now,
            is_turning: false,
            is_moving: false,
            is_walking: false,
            is_running: false,
            is_sneaking: false,
            is_flying: false,
            is_pressing_right_click: false,
            hand_slot_changed: false,
            hand_stack_reseted: false,
        }
    }

    /// The state at the start of a session at time `now`.
    pub open spec fn initial(now: u64) -> AceState {
        AceState {
            last_flight: now,
            last_space_press: now,
            last_shift_press: now,
            is_turning: false,
            is_moving: false,
            is_walking: false,
            is_running: false,
            is_sneaking: false,
            is_flying: false,
            is_pressing_right_click: false,
            hand_slot_changed: false,
            hand_stack_reseted: false,
        }
    }

    /// Whether the flags of the held channels say what `held` says: each is
    /// set if and only if its key or button is pressed.
    pub open spec fn agrees_with(&self, held: Held) -> bool {
        &&& self.is_walking <==> held.keys.contains(Key::W)
        &&& self.is_running <==> held.keys.contains(Key::Control)
        &&& self.is_sneaking <==> held.keys.contains(Key::Shift)
        &&& self.is_pressing_right_click <==> held.buttons.contains(MouseButton::Right)
    }

    /// Whether no held channel is active and no per-instruction mark is set:
    /// the state in which an instruction leaves the executors.
    pub open spec fn is_released(&self) -> bool {
        &&& !self.is_walking
        &&& !self.is_running
        &&& !self.is_sneaking
        &&& !self.is_flying
        &&& !self.is_pressing_right_click
        &&& !self.hand_slot_changed
        &&& !self.hand_stack_reseted
    }
}

} // verus!
