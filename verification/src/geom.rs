//! Distance and draw-radius computation.
//!
//! A particle is drawn with a radius of one twentieth of its distance to the
//! pointer, but never below a floor of three pixels. The distance is the
//! integer square root of the squared displacement.

use vstd::prelude::*;

verus! {

/// Smallest radius ever drawn: three pixels, in fixed-point units.
pub const RADIUS_MIN: i64 = 3000;

/// Divisor turning a distance into a radius: radius is distance / 20.
pub const RADIUS_DIV: u64 = 20;

/// The integer square root: the greatest `r` with `r * r <= n`.
pub open spec fn sqrt_floor(n: nat) -> nat
    decreases n,
{
    if n == 0 {
        0
    } else {
        let r = sqrt_floor((n - 1) as nat);
        if (r + 1) * (r + 1) <= n {
            r + 1
        } else {
            r
        }
    }
}

/// `sqrt_floor(n)` squares to at most `n`, and its successor squares above `n`.
pub proof fn lemma_sqrt_floor_bounds(n: nat)
    ensures
        sqrt_floor(n) * sqrt_floor(n) <= n,
        (sqrt_floor(n) + 1) * (sqrt_floor(n) + 1) > n,
    decreases n,
{
    if n == 0 {
        assert(sqrt_floor(0) == 0);
        assert(sqrt_floor(n) * sqrt_floor(n) <= n);
        assert((sqrt_floor(n) + 1) * (sqrt_floor(n) + 1) > n) by (nonlinear_arith)
            requires
                n == 0,
                sqrt_floor(n) == 0,
        ;
    } else {
        let p = sqrt_floor((n - 1) as nat);
        lemma_sqrt_floor_bounds((n - 1) as nat);
        assert(sqrt_floor(n) == if (p + 1) * (p + 1) <= n {
            p + 1
        } else {
            p
        });
        if (p + 1) * (p + 1) <= n {
            assert(sqrt_floor(n) == p + 1);
            assert(n <= (p + 1) * (p + 1)) by {
                assert(n - 1 < (p + 1) * (p + 1));
            }
            assert((p + 2) * (p + 2) > (p + 1) * (p + 1)) by (nonlinear_arith);
        } else {
            assert(sqrt_floor(n) == p);
            assert(p * p <= n - 1);
        }
    }
}

/// Any `r` whose square brackets `n` is the integer square root of `n`.
pub proof fn lemma_sqrt_floor_unique(n: nat, r: nat)
    requires
        r * r <= n,
        (r + 1) * (r + 1) > n,
    ensures
        r == sqrt_floor(n),
{
    let s = sqrt_floor(n);
    lemma_sqrt_floor_bounds(n);
    if r < s {
        assert((r + 1) * (r + 1) <= s * s) by (nonlinear_arith)
            requires
                r + 1 <= s,
        ;
    }
    if s < r {
        assert((s + 1) * (s + 1) <= r * r) by (nonlinear_arith)
            requires
                s + 1 <= r,
        ;
    }
}

/// The integer square root, by bisection.
pub fn isqrt(n: u64) -> (r: u64)
    ensures
        r == sqrt_floor(n as nat),
        r * r <= n,
        (r + 1) * (r + 1) > n,
{
    let mut lo: u64 = 0;
    let mut hi: u64 = 4_294_967_295;
    proof {
        assert((hi + 1) * (hi + 1) > n as int) by (nonlinear_arith)
            requires
                hi == 4_294_967_295,
                n <= u64::MAX,
        ;
    }
    while lo < hi
        invariant
            lo <= hi,
            hi <= 4_294_967_295,
            lo * lo <= n,
            (hi + 1) * (hi + 1) > n,
        decreases hi - lo,
    {
        let mid: u64 = lo + (hi - lo + 1) / 2;
        proof {
            assert(mid * mid <= u64::MAX) by (nonlinear_arith)
                requires
                    mid <= 4_294_967_295,
            ;
        }
        if mid * mid <= n {
            lo = mid;
        } else {
            hi = mid - 1;
        }
    }
    proof {
        lemma_sqrt_floor_unique(n as nat, lo as nat);
    }
    lo
}

/// The radius a particle at displacement `(dx, dy)` from the pointer is
/// drawn with: a twentieth of the distance, floored at `RADIUS_MIN`.
pub open spec fn radius_spec(dx: int, dy: int) -> int {
    let d = sqrt_floor((dx * dx + dy * dy) as nat) as int;
    if d / (RADIUS_DIV as int) > RADIUS_MIN {
        d / (RADIUS_DIV as int)
    } else {
        RADIUS_MIN as int
    }
}

/// Computes the draw radius for a displacement; the result never falls
/// below the three-pixel floor.
pub fn draw_radius(dx: i64, dy: i64) -> (r: i64)
    requires
        -2_000_000_000 <= dx <= 2_000_000_000,
        -2_000_000_000 <= dy <= 2_000_000_000,
    ensures
        r == radius_spec(dx as int, dy as int),
        r >= RADIUS_MIN,
{
    proof {
        assert(0 <= dx * dx <= 4_000_000_000_000_000_000) by (nonlinear_arith)
            requires
                -2_000_000_000 <= dx <= 2_000_000_000,
        ;
        assert(0 <= dy * dy <= 4_000_000_000_000_000_000) by (nonlinear_arith)
            requires
                -2_000_000_000 <= dy <= 2_000_000_000,
        ;
    }
    let dsq: u64 = ((dx * dx) + (dy * dy)) as u64;
    let d: u64 = isqrt(dsq);
    proof {
        assert(d <= 3_000_000_000) by (nonlinear_arith)
            requires
                d * d <= 8_000_000_000_000_000_000,
        ;
    }
    let q: u64 = d / RADIUS_DIV;
    if q > 3000 {
        q as i64
    } else {
        RADIUS_MIN
    }
}

} // verus!
