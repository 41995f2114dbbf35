//! A single particle and its per-frame update rule.
//!
//! A particle carries a position, a velocity, a hue label, and two tuning
//! factors — stiffness and friction — assigned once, at creation, from its
//! creation index. Each frame its velocity gains a spring pull toward the
//! pointer and a jitter offset, is damped by the friction factor, and moves
//! the position.

use vstd::prelude::*;

use crate::fixed::{
    clamp_i, clamp_pos, scale_div, tdiv_scale, lemma_tdiv_scale_bound, JITTER_LIMIT, POS_LIMIT,
    VEL_LIMIT,
};

verus! {

/// Middle stiffness, in fixed-point thousandths: 0.015.
pub const STIFF_BASE: i64 = 15;

/// Greatest deviation of stiffness from its middle value: 0.005.
pub const STIFF_SPAN: i64 = 5;

/// Middle friction, in fixed-point thousandths: 0.88.
pub const FRICT_BASE: i64 = 880;

/// Greatest deviation of friction from its middle value: 0.04.
pub const FRICT_SPAN: i64 = 40;

pub const STIFF_MIN: i64 = STIFF_BASE - STIFF_SPAN;

pub const STIFF_MAX: i64 = STIFF_BASE + STIFF_SPAN;

pub const FRICT_MIN: i64 = FRICT_BASE - FRICT_SPAN;

pub const FRICT_MAX: i64 = FRICT_BASE + FRICT_SPAN;

/// A point chasing the pointer.
#[derive(Clone, Copy, PartialEq, Eq, Structural, Debug)]
pub struct Particle {
    pub x: i64,
    pub y: i64,
    pub vx: i64,
    pub vy: i64,
    pub hue: u32,
    pub stiffness: i64,
    pub friction: i64,
}

/// The phase of the creation-index oscillation, in [0, 4000).
pub open spec fn variety_phase(i: int) -> int {
    ((i % 4000) * 70) % 4000
}

/// A bounded triangle-wave oscillation over the creation index, in
/// [-1000, 1000]: it spreads the particles' tuning without repetition
/// between neighbours.
pub open spec fn variety_of(i: int) -> int {
    let p = variety_phase(i);
    if p < 1000 {
        p
    } else if p < 3000 {
        2000 - p
    } else {
        p - 4000
    }
}

/// The stiffness assigned to creation index `i`.
pub open spec fn stiffness_of(i: int) -> int {
    STIFF_BASE + tdiv_scale(variety_of(i) * STIFF_SPAN)
}

/// The friction assigned to creation index `i`.
pub open spec fn friction_of(i: int) -> int {
    FRICT_BASE + tdiv_scale(variety_of(i) * FRICT_SPAN)
}

/// The hue label assigned to creation index `i`, in degrees [0, 360).
pub open spec fn hue_of(i: int) -> int {
    ((i % 360) * 13) % 360
}

/// The tuning of index `i` stays within its span around the middle value.
pub proof fn lemma_tuning_bounds(i: int)
    ensures
        -1000 <= variety_of(i) <= 1000,
        STIFF_MIN <= stiffness_of(i) <= STIFF_MAX,
        FRICT_MIN <= friction_of(i) <= FRICT_MAX,
        0 <= hue_of(i) < 360,
{
    lemma_tdiv_scale_bound(variety_of(i) * STIFF_SPAN, 5000);
    lemma_tdiv_scale_bound(variety_of(i) * FRICT_SPAN, 40000);
}

/// The particle a reconciliation creates at index `i` with the pointer at
/// `(px, py)`: it starts at the pointer, at rest, with index-derived tuning.
pub open spec fn fresh_particle(i: int, px: i64, py: i64) -> Particle {
    Particle {
        x: px,
        y: py,
        vx: 0,
        vy: 0,
        hue: hue_of(i) as u32,
        stiffness: stiffness_of(i) as i64,
        friction: friction_of(i) as i64,
    }
}

/// One axis of the velocity rule: the displacement scaled by the stiffness
/// and the jitter are added to the velocity, and the sum is damped by the
/// friction factor.
pub open spec fn vel_step(v: int, d: int, k: int, f: int, j: int) -> int {
    tdiv_scale((v + tdiv_scale(d * k) + j) * f)
}

/// The whole per-frame update of one particle: both velocity axes, then the
/// position moved by the new velocity and clamped to the representable range.
pub open spec fn step_spec(p: Particle, mx: i64, my: i64, jx: int, jy: int) -> Particle {
    let nvx = vel_step(p.vx as int, mx - p.x, p.stiffness as int, p.friction as int, jx);
    let nvy = vel_step(p.vy as int, my - p.y, p.stiffness as int, p.friction as int, jy);
    Particle {
        x: clamp_i(p.x + nvx, -(POS_LIMIT as int), POS_LIMIT as int) as i64,
        y: clamp_i(p.y + nvy, -(POS_LIMIT as int), POS_LIMIT as int) as i64,
        vx: nvx as i64,
        vy: nvy as i64,
        hue: p.hue,
        stiffness: p.stiffness,
        friction: p.friction,
    }
}

impl Particle {
    /// Position, velocity and tuning all lie in the ranges the update
    /// rule preserves.
    pub open spec fn wf(self) -> bool {
        &&& -POS_LIMIT <= self.x <= POS_LIMIT
        &&& -POS_LIMIT <= self.y <= POS_LIMIT
        &&& -VEL_LIMIT <= self.vx <= VEL_LIMIT
        &&& -VEL_LIMIT <= self.vy <= VEL_LIMIT
        &&& STIFF_MIN <= self.stiffness <= STIFF_MAX
        &&& FRICT_MIN <= self.friction <= FRICT_MAX
        &&& self.hue < 360
    }

    /// Creates the particle of creation index `index` at the pointer
    /// position, at rest.
    pub fn new(index: usize, px: i64, py: i64) -> (p: Particle)
        requires
            -POS_LIMIT <= px <= POS_LIMIT,
            -POS_LIMIT <= py <= POS_LIMIT,
        ensures
            p == fresh_particle(index as int, px, py),
            p.wf(),
    {
        proof {
            lemma_tuning_bounds(index as int);
        }
        let variety: i64 = variety(index);
        let stiffness: i64 = STIFF_BASE + scale_div(variety * STIFF_SPAN);
        let friction: i64 = FRICT_BASE + scale_div(variety * FRICT_SPAN);
        let hue: u32 = hue_for(index);
        Particle { x: px, y: py, vx: 0, vy: 0, hue, stiffness, friction }
    }

    /// One frame of motion: the velocity is pulled toward the pointer at
    /// `(mx, my)`, offset by the jitter `(jx, jy)`, damped by the friction
    /// factor, and the position moves by the new velocity. The tuning and
    /// the hue never change.
    pub fn step(&mut self, mx: i64, my: i64, jx: i64, jy: i64)
        requires
            old(self).wf(),
            -POS_LIMIT <= mx <= POS_LIMIT,
            -POS_LIMIT <= my <= POS_LIMIT,
            -JITTER_LIMIT <= jx <= JITTER_LIMIT,
            -JITTER_LIMIT <= jy <= JITTER_LIMIT,
        ensures
            *final(self) == step_spec(*old(self), mx, my, jx as int, jy as int),
            final(self).wf(),
            final(self).stiffness == old(self).stiffness,
            final(self).friction == old(self).friction,
            final(self).hue == old(self).hue,
    {
        let dx: i64 = mx - self.x;
        let dy: i64 = my - self.y;
        let nvx: i64 = axis_vel(self.vx, dx, self.stiffness, self.friction, jx);
        let nvy: i64 = axis_vel(self.vy, dy, self.stiffness, self.friction, jy);
        self.vx = nvx;
        self.vy = nvy;
        self.x = clamp_pos(self.x + nvx);
        self.y = clamp_pos(self.y + nvy);
    }
}

/// The creation-index oscillation, computed.
fn variety(i: usize) -> (v: i64)
    ensures
        v == variety_of(i as int),
        -1000 <= v <= 1000,
{
    let p: u64 = (((i % 4000) as u64) * 70) % 4000;
    if p < 1000 {
        p as i64
    } else if p < 3000 {
        2000 - (p as i64)
    } else {
        (p as i64) - 4000
    }
}

/// The hue of a creation index, computed.
fn hue_for(i: usize) -> (h: u32)
    ensures
        h == hue_of(i as int),
{
    (((i % 360) as u32) * 13) % 360
}

/// One axis of the velocity update, with the overflow-freedom and the
/// preservation of the velocity bound proved.
fn axis_vel(v: i64, d: i64, k: i64, f: i64, j: i64) -> (r: i64)
    requires
        -VEL_LIMIT <= v <= VEL_LIMIT,
        -2_000_000_000 <= d <= 2_000_000_000,
        STIFF_MIN <= k <= STIFF_MAX,
        FRICT_MIN <= f <= FRICT_MAX,
        -JITTER_LIMIT <= j <= JITTER_LIMIT,
    ensures
        r == vel_step(v as int, d as int, k as int, f as int, j as int),
        -VEL_LIMIT <= r <= VEL_LIMIT,
{
    proof {
        assert(-40_000_000_000 <= d * k <= 40_000_000_000) by (nonlinear_arith)
            requires
                -2_000_000_000 <= d <= 2_000_000_000,
                0 <= k <= 20,
        ;
        lemma_tdiv_scale_bound(d * k, 40_000_000_000);
    }
    let pull: i64 = scale_div(d * k);
    let s: i64 = v + pull + j;
    proof {
        assert(-496_800_460_000 <= s * f <= 496_800_460_000) by (nonlinear_arith)
            requires
                -540_000_500 <= s <= 540_000_500,
                0 <= f <= 920,
        ;
        lemma_tdiv_scale_bound(s * f, 496_800_460_000);
    }
    scale_div(s * f)
}

/// With the pointer at the particle's own position and no jitter, one step
/// strictly shrinks the squared velocity magnitude: the friction factor,
/// below one, damps the motion.
pub proof fn lemma_step_damps_velocity(p: Particle, mx: i64, my: i64)
    requires
        p.wf(),
        mx == p.x,
        my == p.y,
        p.vx != 0 || p.vy != 0,
    ensures
        ({
            let q = step_spec(p, mx, my, 0, 0);
            q.vx * q.vx + q.vy * q.vy < p.vx * p.vx + p.vy * p.vy
        }),
{
    let q = step_spec(p, mx, my, 0, 0);
    assert(((mx - p.x) as int) * (p.stiffness as int) == 0) by (nonlinear_arith)
        requires
            mx == p.x,
    ;
    assert(((my - p.y) as int) * (p.stiffness as int) == 0) by (nonlinear_arith)
        requires
            my == p.y,
    ;
    assert(tdiv_scale(0) == 0);
    lemma_damp_axis(p.vx as int, p.friction as int);
    lemma_damp_axis(p.vy as int, p.friction as int);
    assert(q.vx as int == tdiv_scale((p.vx as int) * (p.friction as int)));
    assert(q.vy as int == tdiv_scale((p.vy as int) * (p.friction as int)));
    if p.vx != 0 {
        assert(q.vy * q.vy <= p.vy * p.vy);
    } else {
        assert(q.vx * q.vx <= p.vx * p.vx);
    }
}

/// One damped axis: friction below one strictly shrinks a nonzero velocity
/// component and leaves a zero one at zero.
proof fn lemma_damp_axis(v: int, f: int)
    requires
        -VEL_LIMIT <= v <= VEL_LIMIT,
        FRICT_MIN <= f <= FRICT_MAX,
    ensures
        tdiv_scale(v * f) * tdiv_scale(v * f) <= v * v,
        v != 0 ==> tdiv_scale(v * f) * tdiv_scale(v * f) < v * v,
        v == 0 ==> tdiv_scale(v * f) == 0,
        -(VEL_LIMIT as int) <= tdiv_scale(v * f) <= VEL_LIMIT as int,
{
    if v == 0 {
        assert(v * f == 0);
    } else if v > 0 {
        let a = v * f;
        assert(0 < a <= 920 * v) by (nonlinear_arith)
            requires
                a == v * f,
                v > 0,
                840 <= f <= 920,
        ;
        let w = tdiv_scale(a);
        assert(w == a / 1000);
        assert(1000 * w <= a) by {
            vstd::arithmetic::div_mod::lemma_fundamental_div_mod(a, 1000);
        }
        assert(w < v);
        assert(0 <= w);
        assert(w * w < v * v) by (nonlinear_arith)
            requires
                0 <= w < v,
        ;
    } else {
        let u = -v;
        let a = u * f;
        assert(0 < a <= 920 * u) by (nonlinear_arith)
            requires
                a == u * f,
                u > 0,
                840 <= f <= 920,
        ;
        assert(v * f == -a) by (nonlinear_arith)
            requires
                u == -v,
                a == u * f,
        ;
        let t = tdiv_scale(a);
        assert(t == a / 1000);
        assert(1000 * t <= a) by {
            vstd::arithmetic::div_mod::lemma_fundamental_div_mod(a, 1000);
        }
        assert(t < u);
        assert(0 <= t);
        assert(tdiv_scale(-a) == -t);
        assert(t * t < u * u) by (nonlinear_arith)
            requires
                0 <= t < u,
        ;
        assert((-t) * (-t) == t * t) by (nonlinear_arith);
        assert(u * u == v * v) by (nonlinear_arith)
            requires
                u == -v,
        ;
    }
}

} // verus!
