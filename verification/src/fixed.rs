//! Fixed-point quantities and integer square roots.
//!
//! Positions, distances and angles are signed counts of thousandths: of a
//! block for lengths, of a degree for angles. All of them are expected to stay
//! within [`LIMIT`] of zero, which leaves room for the sums and squares the
//! geometry needs.

use vstd::prelude::*;
use vstd::arithmetic::power2::lemma2_to64;
use vstd::arithmetic::power2::lemma_pow2_pos;
use vstd::arithmetic::power2::lemma_pow2_strictly_increases;
use vstd::arithmetic::power2::pow2;
use vstd::bits::lemma_u64_shr_is_div;

verus! {

/// Number of fixed-point units in one whole block or degree.
pub const SCALE: i64 = 1000;

/// Largest magnitude of a fixed-point quantity the engine works with: a
/// thousand million blocks or degrees.
pub const LIMIT: i64 = 1_000_000_000_000;

/// Whether `v` is a quantity the engine works with.
pub open spec fn in_range(v: int) -> bool {
    -LIMIT <= v <= LIMIT
}

/// Whether `r` is the square root of `n`, rounded down.
pub open spec fn is_floor_sqrt(n: int, r: int) -> bool {
    0 <= r && r * r <= n < (r + 1) * (r + 1)
}

/// The square root of `n`, rounded down.
pub open spec fn sqrt_floor(n: int) -> int {
    choose|r: int| is_floor_sqrt(n, r)
}

/// At most one number is the rounded-down square root of `n`.
pub proof fn lemma_floor_sqrt_unique(n: int, r1: int, r2: int)
    requires
        is_floor_sqrt(n, r1),
        is_floor_sqrt(n, r2),
    ensures
        r1 == r2,
{
    if r1 < r2 {
        assert((r1 + 1) * (r1 + 1) <= r2 * r2) by (nonlinear_arith)
            requires
                0 <= r1 + 1 <= r2,
        ;
    } else if r2 < r1 {
        assert((r2 + 1) * (r2 + 1) <= r1 * r1) by (nonlinear_arith)
            requires
                0 <= r2 + 1 <= r1,
        ;
    }
}

/// Whether `v` lies within [`LIMIT`] of zero.
pub fn check_range(v: i64) -> (ok: bool)
    ensures
        ok == in_range(v as int),
{
    -LIMIT <= v && v <= LIMIT
}

/// The square root of `n`, rounded down.
pub fn floor_sqrt(n: u128) -> (r: u64)
    ensures
        is_floor_sqrt(n as int, r as int),
        r == sqrt_floor(n as int),
{
    let mut low: u128 = 0;
    let mut high: u128 = 0x1_0000_0000_0000_0000;
    assert(n < high * high) by (nonlinear_arith)
        requires
            high == 0x1_0000_0000_0000_0000,
            n <= u128::MAX,
    ;
    while high - low > 1
        invariant
            low < high <= 0x1_0000_0000_0000_0000,
            low * low <= n < high * high,
        decreases high - low,
    {
        let mid: u128 = low + (high - low) / 2;
        assert(mid * mid <= u128::MAX) by (nonlinear_arith)
            requires
                0 <= mid < 0x1_0000_0000_0000_0000,
        ;
        if mid * mid <= n {
            low = mid;
        } else {
            high = mid;
        }
    }
    proof {
        lemma_floor_sqrt_unique(n as int, low as int, sqrt_floor(n as int));
    }
    low as u64
}

/// Two to the power of 52: where the exponent of a binary floating-point
/// number of 64 bits begins, and the weight of the leading bit of its
/// significand.
pub const HIDDEN_BIT: u64 = 0x10_0000_0000_0000;

/// Two to the power of 63: the sign bit of such a number.
pub const SIGN_BIT: u64 = 0x8000_0000_0000_0000;

/// The exponent field that marks infinities and what is not a number.
pub const EXPONENT_OF_NO_NUMBER: u64 = 2047;

/// How far the exponent field lies above the power of two it stands for,
/// the significand read as a whole number.
pub const EXPONENT_BIAS: u64 = 1075;

/// The fraction field of a floating-point number given by its bits.
pub open spec fn fraction_of(bits: u64) -> int {
    bits as int % (HIDDEN_BIT as int)
}

/// The exponent field of a floating-point number given by its bits.
pub open spec fn exponent_of(bits: u64) -> int {
    (bits as int / (HIDDEN_BIT as int)) % 2048
}

/// Whether the bits are those of a number, finite and defined.
pub open spec fn is_number(bits: u64) -> bool {
    exponent_of(bits) != EXPONENT_OF_NO_NUMBER
}

/// The significand of the number as a whole number: its magnitude is
/// `significand_of(bits)` times two to the power of `power_of(bits)`.
pub open spec fn significand_of(bits: u64) -> int {
    if exponent_of(bits) == 0 {
        fraction_of(bits)
    } else {
        fraction_of(bits) + HIDDEN_BIT
    }
}

/// The power of two by which the significand is to be multiplied.
pub open spec fn power_of(bits: u64) -> int {
    if exponent_of(bits) == 0 {
        1 - EXPONENT_BIAS
    } else {
        exponent_of(bits) - EXPONENT_BIAS
    }
}

/// The magnitude of the number in half thousandths, what is less than
/// half a thousandth dropped.
pub open spec fn magnitude_in_halves(bits: u64) -> int {
    let doubled = significand_of(bits) * SCALE * 2;
    if power_of(bits) >= 0 {
        doubled * pow2(power_of(bits) as nat)
    } else {
        doubled / (pow2((-power_of(bits)) as nat) as int)
    }
}

/// The magnitude of the number in thousandths, rounded to the nearest; a
/// half is rounded up.
pub open spec fn magnitude_in_thousandths(bits: u64) -> int {
    (magnitude_in_halves(bits) + 1) / 2
}

/// The floating-point number with these bits as a fixed-point quantity:
/// its value in thousandths, rounded to the nearest, a half away from
/// zero. There is none if the bits are not a number or the rounded
/// magnitude exceeds `LIMIT`.
pub open spec fn thousandths(bits: u64) -> Option<i64> {
    if !is_number(bits) || magnitude_in_thousandths(bits) > LIMIT {
        None
    } else if bits >= SIGN_BIT {
        Some((-magnitude_in_thousandths(bits)) as i64)
    } else {
        Some(magnitude_in_thousandths(bits) as i64)
    }
}

/// Converts a binary floating-point number of 64 bits, given by its bits,
/// to a fixed-point quantity.
pub fn from_bits(bits: u64) -> (out: Option<i64>)
    ensures
        out == thousandths(bits),
        out matches Some(v) ==> in_range(v as int),
{
    let exponent: u64 = (bits / HIDDEN_BIT) % 2048;
    let fraction: u64 = bits % HIDDEN_BIT;
    if exponent == EXPONENT_OF_NO_NUMBER {
        return None;
    }
    if exponent >= EXPONENT_BIAS {
        proof {
            lemma_pow2_pos(power_of(bits) as nat);
            assert(significand_of(bits) * SCALE * 2 * pow2(power_of(bits) as nat) > 4 * LIMIT)
                by (nonlinear_arith)
                requires
                    significand_of(bits) >= HIDDEN_BIT,
                    pow2(power_of(bits) as nat) >= 1,
            ;
        }
        return None;
    }
    let significand: u64 = if exponent == 0 { fraction } else { fraction + HIDDEN_BIT };
    let doubled: u64 = significand * 2000;
    let shift: u64 = if exponent == 0 { EXPONENT_BIAS - 1 } else { EXPONENT_BIAS - exponent };
    let halves: u64 = if shift >= 64 {
        proof {
            lemma2_to64();
            if shift > 64 {
                lemma_pow2_strictly_increases(64, shift as nat);
            }
            lemma_small_over_large(doubled as int, pow2(shift as nat) as int);
        }
        0
    } else {
        proof {
            lemma_u64_shr_is_div(doubled, shift);
            assert(doubled >> shift <= doubled) by (bit_vector);
        }
        doubled >> shift
    };
    assert(halves == magnitude_in_halves(bits));
    let magnitude: u64 = (halves + 1) / 2;
    assert(magnitude == magnitude_in_thousandths(bits));
    if magnitude > LIMIT as u64 {
        return None;
    }
    if bits >= SIGN_BIT {
        Some(-(magnitude as i64))
    } else {
        Some(magnitude as i64)
    }
}

/// A number divided by a larger one is zero.
proof fn lemma_small_over_large(small: int, large: int)
    requires
        0 <= small < large,
    ensures
        small / large == 0,
{
    assert(small / large == 0) by (nonlinear_arith)
        requires
            0 <= small < large,
    ;
}

} // verus!
