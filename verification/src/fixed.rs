//! Fixed-point arithmetic shared by the whole crate.
//!
//! Coordinates, velocities and tuning factors are integers counted in
//! thousandths: one pixel is `SCALE` units, a friction of 0.88 is 880.

use vstd::prelude::*;

verus! {

/// Number of fixed-point units to one pixel.
pub const SCALE: i64 = 1000;

/// Greatest coordinate magnitude the simulation carries, on either axis.
pub const POS_LIMIT: i64 = 1_000_000_000;

/// Greatest velocity magnitude a particle can reach on one axis;
/// every update preserves this bound.
pub const VEL_LIMIT: i64 = 500_000_000;

/// Greatest jitter offset accepted on one axis: half a pixel.
pub const JITTER_LIMIT: i64 = 500;

/// Clamping of an integer to a closed interval.
pub open spec fn clamp_i(a: int, lo: int, hi: int) -> int {
    if a < lo {
        lo
    } else if a > hi {
        hi
    } else {
        a
    }
}

/// Division by `SCALE` rounding toward zero, as the host's integer
/// division does on either sign.
pub open spec fn tdiv_scale(a: int) -> int {
    if a >= 0 {
        a / (SCALE as int)
    } else {
        -((-a) / (SCALE as int))
    }
}

/// The magnitude of a truncating division never exceeds the divided bound.
pub proof fn lemma_tdiv_scale_bound(a: int, b: int)
    requires
        0 <= b,
        -b <= a <= b,
    ensures
        -(b / (SCALE as int)) <= tdiv_scale(a) <= b / (SCALE as int),
{
    if a >= 0 {
        vstd::arithmetic::div_mod::lemma_div_is_ordered(a, b, SCALE as int);
        assert(0 <= a / (SCALE as int)) by {
            vstd::arithmetic::div_mod::lemma_div_is_ordered(0, a, SCALE as int);
        }
    } else {
        vstd::arithmetic::div_mod::lemma_div_is_ordered(-a, b, SCALE as int);
        assert(0 <= (-a) / (SCALE as int)) by {
            vstd::arithmetic::div_mod::lemma_div_is_ordered(0, -a, SCALE as int);
        }
    }
}

/// Truncating division by `SCALE` on a bounded value.
pub fn scale_div(a: i64) -> (r: i64)
    requires
        -1_000_000_000_000 <= a <= 1_000_000_000_000,
    ensures
        r == tdiv_scale(a as int),
{
    if a >= 0 {
        ((a as u64) / 1000) as i64
    } else {
        -((((-a) as u64) / 1000) as i64)
    }
}

/// Clamping of a coordinate to the representable range.
pub fn clamp_pos(a: i64) -> (r: i64)
    ensures
        r as int == clamp_i(a as int, -(POS_LIMIT as int), POS_LIMIT as int),
{
    if a < -POS_LIMIT {
        -POS_LIMIT
    } else if a > POS_LIMIT {
        POS_LIMIT
    } else {
        a
    }
}

/// Clamping of a jitter offset to the accepted amplitude.
pub fn clamp_jitter(a: i64) -> (r: i64)
    ensures
        r as int == clamp_i(a as int, -(JITTER_LIMIT as int), JITTER_LIMIT as int),
{
    if a < -JITTER_LIMIT {
        -JITTER_LIMIT
    } else if a > JITTER_LIMIT {
        JITTER_LIMIT
    } else {
        a
    }
}

} // verus!
