//! The particle collection, the shared pointer position, and the per-frame
//! driver steps: reconciliation to a target count and the update-and-draw
//! pass over every particle.

use vstd::prelude::*;

use crate::fixed::{clamp_i, clamp_jitter, clamp_pos, JITTER_LIMIT, POS_LIMIT};
use crate::geom::{draw_radius, radius_spec, RADIUS_MIN};
use crate::particle::{
    fresh_particle, friction_of, hue_of, step_spec, stiffness_of, Particle,
};

verus! {

/// Everything needed to draw one particle for one frame: its updated
/// position, its radius, and its hue label in degrees.
#[derive(Clone, Copy, PartialEq, Eq, Structural, Debug)]
pub struct DrawCmd {
    pub x: i64,
    pub y: i64,
    pub radius: i64,
    pub hue: u32,
}

/// A particle carries exactly the tuning and the hue of its index: assigned
/// at creation, they never change afterwards.
pub open spec fn tuned(p: Particle, i: int) -> bool {
    &&& p.stiffness == stiffness_of(i)
    &&& p.friction == friction_of(i)
    &&& p.hue == hue_of(i)
}

/// The jitter applied to the particle at index `i`: the host-supplied pair,
/// clamped to the accepted amplitude, or none where the list is short.
pub open spec fn jitter_at(js: Seq<(i64, i64)>, i: int) -> (int, int) {
    if 0 <= i < js.len() {
        (
            clamp_i(js[i].0 as int, -(JITTER_LIMIT as int), JITTER_LIMIT as int),
            clamp_i(js[i].1 as int, -(JITTER_LIMIT as int), JITTER_LIMIT as int),
        )
    } else {
        (0, 0)
    }
}

/// The draw command one frame produces for a particle: the updated position,
/// the hue, and a radius taken from the displacement to the pointer before
/// the move.
pub open spec fn cmd_spec(p: Particle, mx: i64, my: i64, j: (int, int)) -> DrawCmd {
    let q = step_spec(p, mx, my, j.0, j.1);
    DrawCmd { x: q.x, y: q.y, radius: radius_spec(mx - p.x, my - p.y) as i64, hue: p.hue }
}

/// The animation state: an ordered particle collection and the last
/// pointer position reported by the host.
pub struct World {
    pub particles: Vec<Particle>,
    pub pointer_x: i64,
    pub pointer_y: i64,
}

impl World {
    /// The pointer lies in the representable range and every particle is
    /// well formed and still carries the tuning of its index.
    pub open spec fn wf(self) -> bool {
        &&& -POS_LIMIT <= self.pointer_x <= POS_LIMIT
        &&& -POS_LIMIT <= self.pointer_y <= POS_LIMIT
        &&& forall|i: int|
            0 <= i < self.particles@.len() ==> (#[trigger] self.particles@[i]).wf()
        &&& forall|i: int|
            0 <= i < self.particles@.len() ==> tuned(#[trigger] self.particles@[i], i)
    }

    /// An empty world with the pointer at the origin.
    pub fn new() -> (w: World)
        ensures
            w.particles@.len() == 0,
            w.pointer_x == 0,
            w.pointer_y == 0,
            w.wf(),
    {
        World { particles: Vec::new(), pointer_x: 0, pointer_y: 0 }
    }

    /// Number of particles held.
    pub fn len(&self) -> (n: usize)
        ensures
            n == self.particles@.len(),
    {
        self.particles.len()
    }

    /// The particle at index `i`.
    pub fn particle_at(&self, i: usize) -> (p: Particle)
        requires
            i < self.particles@.len(),
        ensures
            p == self.particles@[i as int],
    {
        self.particles[i]
    }

    /// The pointer position last recorded.
    pub fn pointer(&self) -> (pos: (i64, i64))
        ensures
            pos.0 == self.pointer_x,
            pos.1 == self.pointer_y,
    {
        (self.pointer_x, self.pointer_y)
    }

    /// Records a pointer position reported by the host, last write wins,
    /// clamped to the representable range. The particles are untouched.
    pub fn set_pointer(&mut self, x: i64, y: i64)
        requires
            old(self).wf(),
        ensures
            final(self).wf(),
            final(self).pointer_x as int == clamp_i(
                x as int,
                -(POS_LIMIT as int),
                POS_LIMIT as int,
            ),
            final(self).pointer_y as int == clamp_i(
                y as int,
                -(POS_LIMIT as int),
                POS_LIMIT as int,
            ),
            final(self).particles@ == old(self).particles@,
    {
        self.pointer_x = clamp_pos(x);
        self.pointer_y = clamp_pos(y);
    }

    /// Reconciles the collection length to `target`: appends particles
    /// created at the current pointer position, with index-derived tuning,
    /// or truncates from the tail. Particles that stay are untouched.
    pub fn reconcile(&mut self, target: usize)
        requires
            old(self).wf(),
        ensures
            final(self).wf(),
            final(self).pointer_x == old(self).pointer_x,
            final(self).pointer_y == old(self).pointer_y,
            final(self).particles@.len() == target,
            target <= old(self).particles@.len() ==> final(self).particles@ == old(self).particles@.take(target as int),
            target >= old(self).particles@.len() ==> final(self).particles@.take(old(self).particles@.len() as int) == old(self).particles@,
            target >= old(self).particles@.len() ==> (forall|i: int|
                old(self).particles@.len() <= i < target
                    ==> #[trigger] final(self).particles@[i] == fresh_particle(i, old(self).pointer_x, old(self).pointer_y)),
    {
        let ghost orig: Seq<Particle> = self.particles@;
        let px: i64 = self.pointer_x;
        let py: i64 = self.pointer_y;
        while self.particles.len() < target
            invariant
                self.wf(),
                self.pointer_x == px,
                self.pointer_y == py,
                orig.len() <= self.particles@.len(),
                self.particles@.len() == orig.len() || self.particles@.len() <= target,
                self.particles@.take(orig.len() as int) == orig,
                forall|i: int|
                    orig.len() <= i < self.particles@.len() ==> #[trigger] self.particles@[i]
                        == fresh_particle(i, px, py),
            decreases target - self.particles.len(),
        {
            let idx: usize = self.particles.len();
            let p = Particle::new(idx, px, py);
            proof {
                crate::particle::lemma_tuning_bounds(idx as int);
                assert(self.particles@.push(p).take(orig.len() as int) =~= orig);
            }
            self.particles.push(p);
        }
        if self.particles.len() > target {
            proof {
                assert(self.particles@.len() == orig.len());
                assert(self.particles@ =~= orig);
            }
            self.particles.truncate(target);
            proof {
                assert(self.particles@ =~= orig.take(target as int));
            }
        }
        proof {
            if target <= orig.len() {
                assert(self.particles@ =~= orig.take(target as int));
            }
        }
    }

    /// One update-and-draw pass: every particle takes one step toward the
    /// pointer with its own clamped jitter, in collection order, and yields
    /// a draw command whose radius reflects its displacement before the
    /// move. Stiffness, friction and hue of every particle are unchanged.
    pub fn step(&mut self, jitters: &Vec<(i64, i64)>) -> (cmds: Vec<DrawCmd>)
        requires
            old(self).wf(),
        ensures
            final(self).wf(),
            final(self).pointer_x == old(self).pointer_x,
            final(self).pointer_y == old(self).pointer_y,
            final(self).particles@.len() == old(self).particles@.len(),
            forall|i: int|
                0 <= i < old(self).particles@.len() ==> #[trigger] final(self).particles@[i]
                    == step_spec(
                    old(self).particles@[i],
                    old(self).pointer_x,
                    old(self).pointer_y,
                    jitter_at(jitters@, i).0,
                    jitter_at(jitters@, i).1,
                ),
            forall|i: int|
                0 <= i < old(self).particles@.len() ==> (#[trigger] final(self).particles@[i]).stiffness
                    == old(self).particles@[i].stiffness && final(self).particles@[i].friction
                    == old(self).particles@[i].friction && final(self).particles@[i].hue
                    == old(self).particles@[i].hue,
            cmds@.len() == old(self).particles@.len(),
            forall|i: int|
                0 <= i < old(self).particles@.len() ==> #[trigger] cmds@[i] == cmd_spec(
                    old(self).particles@[i],
                    old(self).pointer_x,
                    old(self).pointer_y,
                    jitter_at(jitters@, i),
                ),
            forall|i: int| 0 <= i < cmds@.len() ==> (#[trigger] cmds@[i]).radius >= RADIUS_MIN,
    {
        let ghost orig: Seq<Particle> = self.particles@;
        let px: i64 = self.pointer_x;
        let py: i64 = self.pointer_y;
        let n: usize = self.particles.len();
        let mut updated: Vec<Particle> = Vec::new();
        let mut cmds: Vec<DrawCmd> = Vec::new();
        let mut idx: usize = 0;
        while idx < n
            invariant
                idx <= n,
                n == orig.len(),
                self.particles@ == orig,
                self.wf(),
                self.pointer_x == px,
                self.pointer_y == py,
                updated@.len() == idx,
                cmds@.len() == idx,
                forall|i: int|
                    0 <= i < idx ==> #[trigger] updated@[i] == step_spec(
                        orig[i],
                        px,
                        py,
                        jitter_at(jitters@, i).0,
                        jitter_at(jitters@, i).1,
                    ),
                forall|i: int| 0 <= i < idx ==> (#[trigger] updated@[i]).wf(),
                forall|i: int| 0 <= i < idx ==> tuned(#[trigger] updated@[i], i),
                forall|i: int|
                    0 <= i < idx ==> #[trigger] cmds@[i] == cmd_spec(
                        orig[i],
                        px,
                        py,
                        jitter_at(jitters@, i),
                    ),
                forall|i: int| 0 <= i < idx ==> (#[trigger] cmds@[i]).radius >= RADIUS_MIN,
            decreases n - idx,
        {
            let mut p: Particle = self.particles[idx];
            let j: (i64, i64) = jitter_for(jitters, idx);
            let dx: i64 = px - p.x;
            let dy: i64 = py - p.y;
            let radius: i64 = draw_radius(dx, dy);
            p.step(px, py, j.0, j.1);
            updated.push(p);
            cmds.push(DrawCmd { x: p.x, y: p.y, radius, hue: p.hue });
            idx = idx + 1;
        }
        self.particles = updated;
        cmds
    }
}

/// The clamped jitter pair for index `i`, or a zero pair where the list
/// is short.
fn jitter_for(js: &Vec<(i64, i64)>, i: usize) -> (j: (i64, i64))
    ensures
        j.0 as int == jitter_at(js@, i as int).0,
        j.1 as int == jitter_at(js@, i as int).1,
        -JITTER_LIMIT <= j.0 <= JITTER_LIMIT,
        -JITTER_LIMIT <= j.1 <= JITTER_LIMIT,
{
    if i < js.len() {
        let pair: (i64, i64) = js[i];
        (clamp_jitter(pair.0), clamp_jitter(pair.1))
    } else {
        (0, 0)
    }
}

} // verus!
