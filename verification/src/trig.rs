//! A rational fixed-point approximation of sine and cosine.
//!
//! Angles are given in milli-radians over one full turn `[0, TWO_PI_MILLI]`,
//! results in milli-units `[-1000, 1000]`. The half-turn sine uses
//! Bhaskara's approximation `16x(p - x) / (5p^2 - 4x(p - x))` with
//! `p = PI_MILLI`, which is exact at `0`, at the quarter turn and at the
//! half turn, and stays within a few milli-units elsewhere.

use vstd::prelude::*;

verus! {

/// Half a turn in milli-radians.
pub const PI_MILLI: i64 = 3142;

/// A full turn in milli-radians.
pub const TWO_PI_MILLI: i64 = 6284;

/// `5 * PI_MILLI * PI_MILLI`, the constant part of the denominator.
pub const SINE_DEN: i64 = 49360820;

/// Bhaskara's numerator/denominator quotient, scaled to milli-units.
pub open spec fn half_sine_spec(x: int) -> int {
    16000 * (x * (3142 - x)) / (49360820 - 4 * (x * (3142 - x)))
}

/// The approximate sine over a full turn: the half-turn curve, mirrored
/// negative over the second half.
pub open spec fn sin_milli_spec(x: int) -> int {
    if x <= 3142 {
        half_sine_spec(x)
    } else {
        -half_sine_spec(x - 3142)
    }
}

/// The approximate cosine: the sine a quarter turn ahead.
pub open spec fn cos_milli_spec(x: int) -> int {
    if x + 1571 <= 6284 {
        sin_milli_spec(x + 1571)
    } else {
        sin_milli_spec(x + 1571 - 6284)
    }
}

/// Sine on the first half turn.
fn half_sine(x: i64) -> (r: i64)
    requires
        0 <= x <= PI_MILLI,
    ensures
        r == half_sine_spec(x as int),
        0 <= r <= 1000,
{
    proof {
        lemma_arch_bounds(x as int);
    }
    let p = x * (3142 - x);
    let num = 16000 * p;
    let den = SINE_DEN - 4 * p;
    proof {
        vstd::arithmetic::div_mod::lemma_div_pos_is_pos(num as int, den as int);
        vstd::arithmetic::div_mod::lemma_div_is_ordered(num as int, den as int * 1000, den as int);
        vstd::arithmetic::div_mod::lemma_div_multiples_vanish(1000, den as int);
        assert(den as int * 1000 == 1000 * (den as int));
        assert(num <= den as int * 1000) by (nonlinear_arith)
            requires
                num == 16000 * p,
                den == 49360820 - 4 * p,
                0 <= p <= 2468041,
        ;
    }
    num / den
}

/// The arch `x * (3142 - x)` is between `0` and `1571 * 1571` on the half
/// turn, so Bhaskara's denominator is positive and dominates the numerator.
proof fn lemma_arch_bounds(x: int)
    requires
        0 <= x <= 3142,
    ensures
        0 <= x * (3142 - x) <= 2468041,
{
    assert(0 <= x * (3142 - x) <= 2468041) by (nonlinear_arith)
        requires
            0 <= x <= 3142,
    ;
}

/// Sine of an angle over a full turn, in milli-units.
pub fn sin_milli(x: i64) -> (r: i64)
    requires
        0 <= x <= TWO_PI_MILLI,
    ensures
        r == sin_milli_spec(x as int),
        -1000 <= r <= 1000,
{
    if x <= PI_MILLI {
        half_sine(x)
    } else {
        -half_sine(x - PI_MILLI)
    }
}

/// Cosine of an angle over a full turn, in milli-units.
pub fn cos_milli(x: i64) -> (r: i64)
    requires
        0 <= x <= TWO_PI_MILLI,
    ensures
        r == cos_milli_spec(x as int),
        -1000 <= r <= 1000,
{
    let y = x + 1571;
    if y <= TWO_PI_MILLI {
        sin_milli(y)
    } else {
        sin_milli(y - TWO_PI_MILLI)
    }
}

} // verus!
