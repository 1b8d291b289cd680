//! Geometry: points in space, distances between them, and the mapping from a
//! heading error to a bounded pointer force.

use vstd::prelude::*;
use crate::fixed::floor_sqrt;
use crate::fixed::is_floor_sqrt;
use crate::fixed::SCALE;
use crate::fixed::sqrt_floor;
use crate::minecraft_resource::PlayerPosition;

verus! {

/// A full turn, in thousandths of a degree.
pub const FULL_TURN: i64 = 360_000;

/// Half a turn, in thousandths of a degree.
pub const HALF_TURN: i64 = 180_000;

/// Whether `v` can be held in an `i64`.
pub open spec fn fits(v: int) -> bool {
    i64::MIN <= v <= i64::MAX
}

/// A point or a displacement in space, in thousandths of a block. `y` is the
/// vertical axis.
#[derive(Clone, Copy, Debug, PartialEq, Eq)]
pub struct Vector3D {
    pub x: i64,
    pub y: i64,
    pub z: i64,
}

impl From<PlayerPosition> for Vector3D {
    fn from(value: PlayerPosition) -> (out: Self) {
        Vector3D { x: value.x, y: value.y, z: value.z }
    }
}

impl vstd::std_specs::convert::FromSpecImpl<PlayerPosition> for Vector3D {
    open spec fn obeys_from_spec() -> bool {
        true
    }

    open spec fn from_spec(value: PlayerPosition) -> Self {
        Vector3D { x: value.x, y: value.y, z: value.z }
    }
}

impl From<[i64; 3]> for Vector3D {
    fn from(value: [i64; 3]) -> (out: Self) {
        Vector3D { x: value[0], y: value[1], z: value[2] }
    }
}

impl vstd::std_specs::convert::FromSpecImpl<[i64; 3]> for Vector3D {
    open spec fn obeys_from_spec() -> bool {
        true
    }

    open spec fn from_spec(value: [i64; 3]) -> Self {
        Vector3D { x: value[0], y: value[1], z: value[2] }
    }
}

impl std::ops::Sub for Vector3D {
    type Output = Vector3D;

    fn sub(self, rhs: Self) -> (out: Vector3D) {
        Vector3D { x: self.x - rhs.x, y: self.y - rhs.y, z: self.z - rhs.z }
    }
}

impl vstd::std_specs::ops::SubSpecImpl for Vector3D {
    open spec fn obeys_sub_spec() -> bool {
        true
    }

    open spec fn sub_req(self, rhs: Self) -> bool {
        fits(self.x - rhs.x) && fits(self.y - rhs.y) && fits(self.z - rhs.z)
    }

    open spec fn sub_spec(self, rhs: Self) -> Vector3D {
        Vector3D {
            x: (self.x - rhs.x) as i64,
            y: (self.y - rhs.y) as i64,
            z: (self.z - rhs.z) as i64,
        }
    }
}

impl Vector3D {
    /// The square of the vector's length.
    pub open spec fn squared_magnitude(&self) -> int {
        self.x * self.x + self.y * self.y + self.z * self.z
    }

    /// The square of the distance to `other` as seen from above, the vertical
    /// axis left out.
    pub open spec fn squared_planar_distance(&self, other: &Vector3D) -> int {
        (self.x - other.x) * (self.x - other.x) + (self.z - other.z) * (self.z - other.z)
    }

    /// The distance to `other` as seen from above, rounded down to a whole
    /// thousandth.
    pub open spec fn planar_distance(&self, other: &Vector3D) -> int {
        sqrt_floor(self.squared_planar_distance(other))
    }

    /// The vector's length, rounded down to a whole thousandth.
    pub fn magnitude(&self) -> (out: u64)
        ensures
            is_floor_sqrt(self.squared_magnitude(), out as int),
            out == sqrt_floor(self.squared_magnitude()),
    {
        let x: u128 = magnitude_of(self.x) as u128;
        let y: u128 = magnitude_of(self.y) as u128;
        let z: u128 = magnitude_of(self.z) as u128;
        proof {
            lemma_square_bound(x as int);
            lemma_square_bound(y as int);
            lemma_square_bound(z as int);
            lemma_square_of_magnitude(self.x as int);
            lemma_square_of_magnitude(self.y as int);
            lemma_square_of_magnitude(self.z as int);
        }
        floor_sqrt(x * x + y * y + z * z)
    }

    /// The distance to `other` as seen from above, rounded down to a whole
    /// thousandth. The two points must be close enough for their horizontal
    /// offsets to be representable.
    pub fn distance_to(&self, other: &Vector3D) -> (out: u64)
        requires
            fits(self.x - other.x),
            fits(self.z - other.z),
        ensures
            is_floor_sqrt(self.squared_planar_distance(other), out as int),
            out == self.planar_distance(other),
    {
        let me = Vector3D { x: self.x, y: 0, z: self.z };
        let you = Vector3D { x: other.x, y: 0, z: other.z };
        let offset = me - you;
        assert(offset.squared_magnitude() == self.squared_planar_distance(other)) by {
            assert(offset.x == self.x - other.x);
            assert(offset.z == self.z - other.z);
            assert(offset.y == 0);
        }
        offset.magnitude()
    }

    /// How far `self` lies above `other`; negative when it lies below.
    pub fn y_distance_to(&self, other: &Vector3D) -> (out: i64)
        requires
            fits(self.y - other.y),
        ensures
            out == self.y - other.y,
    {
        self.y - other.y
    }
}

/// An angle brought into the closed half-turn range around zero by adding or
/// taking away full turns until it fits. An odd multiple of half a turn keeps
/// its sign: it becomes `HALF_TURN` when positive and `-HALF_TURN` when
/// negative.
pub open spec fn normalize_angle(theta: int) -> int
    decreases (if theta < 0 { -theta } else { theta }),
{
    if theta > HALF_TURN {
        normalize_angle(theta - FULL_TURN)
    } else if theta < -HALF_TURN {
        normalize_angle(theta + FULL_TURN)
    } else {
        theta
    }
}

/// The whole degrees in `theta`, the fraction dropped towards zero.
pub open spec fn whole_degrees(theta: int) -> int {
    if theta < 0 {
        -((-theta) / (SCALE as int))
    } else {
        theta / (SCALE as int)
    }
}

/// `value` raised to at least `floor`, then lowered to at most `ceiling`.
pub open spec fn clamp_force(value: int, ceiling: int, floor: int) -> int {
    let raised = if value < floor { floor } else { value };
    if raised > ceiling { ceiling } else { raised }
}

/// The pointer force that answers a heading error of `theta`: the error is
/// normalized, cut to whole degrees and clamped into `[floor, ceiling]`.
pub open spec fn angle_force(theta: int, ceiling: int, floor: int) -> int {
    clamp_force(whole_degrees(normalize_angle(theta)), ceiling, floor)
}

/// The one angle in `(-HALF_TURN, HALF_TURN]` that differs from `theta` by
/// full turns.
pub open spec fn wrap_high(theta: int) -> int {
    (theta + HALF_TURN - 1) % (FULL_TURN as int) - HALF_TURN + 1
}

/// The one angle in `[-HALF_TURN, HALF_TURN)` that differs from `theta` by
/// full turns.
pub open spec fn wrap_low(theta: int) -> int {
    (theta + HALF_TURN) % (FULL_TURN as int) - HALF_TURN
}

/// Normalizing an angle above the range gives its representative in
/// `(-HALF_TURN, HALF_TURN]`; below the range, the one in
/// `[-HALF_TURN, HALF_TURN)`.
pub proof fn lemma_normalize_angle_closed_form(theta: int)
    ensures
        theta > HALF_TURN ==> normalize_angle(theta) == wrap_high(theta),
        theta < -HALF_TURN ==> normalize_angle(theta) == wrap_low(theta),
        -HALF_TURN <= theta <= HALF_TURN ==> normalize_angle(theta) == theta,
    decreases (if theta < 0 { -theta } else { theta }),
{
    if theta > HALF_TURN {
        lemma_normalize_angle_closed_form(theta - FULL_TURN);
    } else if theta < -HALF_TURN {
        lemma_normalize_angle_closed_form(theta + FULL_TURN);
    }
}

/// A normalized angle lies within half a turn of zero and differs from the
/// angle it came from by a whole number of turns.
pub proof fn lemma_normalize_angle_range(theta: int)
    ensures
        -HALF_TURN <= normalize_angle(theta) <= HALF_TURN,
        (normalize_angle(theta) - theta) % (FULL_TURN as int) == 0,
{
    lemma_normalize_angle_closed_form(theta);
}

/// The force never leaves the range it is clamped into.
pub proof fn lemma_angle_force_bounded(theta: int, ceiling: int, floor: int)
    requires
        floor <= ceiling,
    ensures
        floor <= angle_force(theta, ceiling, floor) <= ceiling,
{
}

/// A normalized angle is the representative that its sign calls for: the
/// one that may be half a turn for a positive angle, the one that may be
/// minus half a turn for any other.
pub proof fn lemma_normalize_angle_by_sign(theta: int)
    ensures
        normalize_angle(theta) == (if theta > 0 {
            wrap_high(theta)
        } else {
            wrap_low(theta)
        }),
{
    lemma_normalize_angle_closed_form(theta);
}

/// The two representatives of an angle differ only for odd multiples of
/// half a turn, and angles a whole number of turns apart have the same
/// representatives.
pub proof fn lemma_representatives(theta: int, turns: int)
    ensures
        theta % (FULL_TURN as int) != HALF_TURN ==> wrap_high(theta) == wrap_low(theta),
        wrap_high(theta + turns * FULL_TURN) == wrap_high(theta),
        wrap_low(theta + turns * FULL_TURN) == wrap_low(theta),
{
}

/// Adding whole turns to a heading error does not change the force. The one
/// exception is an error of exactly half a turn (modulo full turns), which
/// is answered with a turn in the direction of its sign: there the two
/// errors must have the same sign.
pub proof fn lemma_angle_force_periodic(theta: int, turns: int, ceiling: int, floor: int)
    requires
        theta % (FULL_TURN as int) == HALF_TURN ==> (theta > 0 <==> theta + turns * FULL_TURN > 0),
    ensures
        angle_force(theta + turns * FULL_TURN, ceiling, floor) == angle_force(
            theta,
            ceiling,
            floor,
        ),
{
    let shifted = theta + turns * FULL_TURN;
    lemma_normalize_angle_by_sign(theta);
    lemma_normalize_angle_by_sign(shifted);
    lemma_representatives(theta, turns);
    assert(normalize_angle(shifted) == normalize_angle(theta));
}

/// Angles that answer to a pointer force.
pub trait CalculateAngleForce {
    /// The angle, in thousandths of a degree.
    spec fn millidegrees(&self) -> int;

    /// The pointer force for this heading error, between `floor` and
    /// `ceiling`.
    fn calculate_angle_force(&self, ceiling: i32, floor: i32) -> (force: i32)
        ensures
            force == angle_force(self.millidegrees(), ceiling as int, floor as int),
    ;
}

impl CalculateAngleForce for i64 {
    open spec fn millidegrees(&self) -> int {
        *self as int
    }

    fn calculate_angle_force(&self, ceiling: i32, floor: i32) -> (force: i32) {
        let normalized: i64 = normalize(*self);
        proof {
            lemma_normalize_angle_range(*self as int);
        }
        let whole: i32 = (normalized / SCALE) as i32;
        let raised: i32 = if whole < floor { floor } else { whole };
        if raised > ceiling { ceiling } else { raised }
    }
}

/// Brings `theta` into the closed half-turn range around zero.
pub fn normalize(theta: i64) -> (out: i64)
    ensures
        out == normalize_angle(theta as int),
{
    proof {
        lemma_normalize_angle_closed_form(theta as int);
    }
    if theta > HALF_TURN {
        let turns: i64 = (theta - HALF_TURN - 1) / FULL_TURN + 1;
        theta - turns * FULL_TURN
    } else if theta < -HALF_TURN {
        let turns: i64 = (-(theta + HALF_TURN) - 1) / FULL_TURN + 1;
        theta + turns * FULL_TURN
    } else {
        theta
    }
}

/// The magnitude of `v`.
fn magnitude_of(v: i64) -> (out: u64)
    ensures
        out == if v < 0 { -v } else { v as int },
{
    if v < 0 {
        if v == i64::MIN {
            0x8000_0000_0000_0000
        } else {
            (-v) as u64
        }
    } else {
        v as u64
    }
}

/// The square of a magnitude of 64 bits fits in 127 bits.
proof fn lemma_square_bound(v: int)
    requires
        0 <= v <= 0x8000_0000_0000_0000,
    ensures
        0 <= v * v <= 0x4000_0000_0000_0000_0000_0000_0000_0000,
{
    assert(0 <= v * v <= 0x4000_0000_0000_0000_0000_0000_0000_0000) by (nonlinear_arith)
        requires
            0 <= v <= 0x8000_0000_0000_0000,
    ;
}

/// A number and its opposite have the same square.
proof fn lemma_square_of_magnitude(v: int)
    ensures
        (-v) * (-v) == v * v,
{
    assert((-v) * (-v) == v * v) by (nonlinear_arith);
}

} // verus!
