//! Particle state: the per-soldier center-of-mass store and the skeleton
//! particle system with its Verlet-style integration steps.

use vstd::prelude::*;
use crate::vec2::Vec2;
use crate::vec2::in_box;
use crate::vec2::vec2;
use crate::fx::FX_ONE;
use crate::fx::fmul;
use crate::fx::fmul_spec;
use crate::fx::iabs;
use crate::fx::lemma_fmul_bound;

verus! {

/// Center-of-mass state for every soldier, indexed by a stable soldier
/// number: position, previous position, velocity and accumulated force.
pub struct ParticleStore {
    pub pos: Vec<Vec2>,
    pub old_pos: Vec<Vec2>,
    pub velocity: Vec<Vec2>,
    pub forces: Vec<Vec2>,
}

impl ParticleStore {
    pub open spec fn wf(self) -> bool {
        &&& self.pos@.len() == self.old_pos@.len()
        &&& self.pos@.len() == self.velocity@.len()
        &&& self.pos@.len() == self.forces@.len()
    }

    /// A store of `n` slots, everything zeroed.
    pub fn new(n: usize) -> (r: ParticleStore)
        ensures
            r.wf(),
            r.pos@.len() == n,
            forall|i: int|
                0 <= i < n ==> #[trigger] r.pos@[i] == (Vec2 { x: 0, y: 0 }) && r.old_pos@[i] == (
                Vec2 { x: 0, y: 0 }) && r.velocity@[i] == (Vec2 { x: 0, y: 0 }) && r.forces@[i]
                    == (Vec2 { x: 0, y: 0 }),
    {
        let mut pos: Vec<Vec2> = Vec::new();
        let mut old_pos: Vec<Vec2> = Vec::new();
        let mut velocity: Vec<Vec2> = Vec::new();
        let mut forces: Vec<Vec2> = Vec::new();
        let mut i: usize = 0;
        while i < n
            invariant
                i <= n,
                pos@.len() == i,
                old_pos@.len() == i,
                velocity@.len() == i,
                forces@.len() == i,
                forall|k: int|
                    0 <= k < i ==> #[trigger] pos@[k] == (Vec2 { x: 0, y: 0 }) && old_pos@[k] == (
                    Vec2 { x: 0, y: 0 }) && velocity@[k] == (Vec2 { x: 0, y: 0 }) && forces@[k]
                        == (Vec2 { x: 0, y: 0 }),
            decreases n - i,
        {
            pos.push(vec2(0, 0));
            old_pos.push(vec2(0, 0));
            velocity.push(vec2(0, 0));
            forces.push(vec2(0, 0));
            i += 1;
        }
        ParticleStore { pos, old_pos, velocity, forces }
    }

    /// Bind slot `num` to a fresh particle at `pos` with velocity `velocity`.
    pub fn create_part(&mut self, pos: Vec2, velocity: Vec2, num: usize)
        requires
            old(self).wf(),
            num < old(self).pos@.len(),
        ensures
            final(self).wf(),
            final(self).pos@.len() == old(self).pos@.len(),
            final(self).pos@ == old(self).pos@.update(num as int, pos),
            final(self).old_pos@ == old(self).old_pos@.update(num as int, pos),
            final(self).velocity@ == old(self).velocity@.update(num as int, velocity),
            final(self).forces@ == old(self).forces@.update(num as int, (Vec2 { x: 0, y: 0 })),
    {
        self.pos[num] = pos;
        self.old_pos[num] = pos;
        self.velocity[num] = velocity;
        self.forces[num] = vec2(0, 0);
    }
}

/// The skeleton: labeled joints with current and previous positions and
/// active flags, integrated by a Verlet-style step under gravity and
/// velocity damping.
pub struct ParticleSystem {
    pub pos: Vec<Vec2>,
    pub old_pos: Vec<Vec2>,
    pub active: Vec<bool>,
    /// Downward acceleration per tick, fixed-point.
    pub gravity: i64,
    /// Fraction of the previous tick's motion kept, fixed-point in `[0, 1]`.
    pub v_damping: i64,
}

/// New x position of joint `i` after one Verlet step.
pub open spec fn verlet_x(ps: ParticleSystem, i: int) -> int {
    ps.pos@[i].x + fmul_spec(ps.pos@[i].x - ps.old_pos@[i].x, ps.v_damping as int)
}

/// New y position of joint `i` after one Verlet step.
pub open spec fn verlet_y(ps: ParticleSystem, i: int) -> int {
    ps.pos@[i].y + fmul_spec(ps.pos@[i].y - ps.old_pos@[i].y, ps.v_damping as int)
        + ps.gravity
}

impl ParticleSystem {
    pub open spec fn wf(self) -> bool {
        &&& self.pos@.len() == self.old_pos@.len()
        &&& self.pos@.len() == self.active@.len()
        &&& 0 <= self.v_damping <= FX_ONE
        &&& 0 <= self.gravity <= FX_ONE
    }

    /// A skeleton of `n` joints, all inactive at the origin.
    pub fn new(n: usize, gravity: i64, v_damping: i64) -> (r: ParticleSystem)
        requires
            0 <= gravity <= FX_ONE,
            0 <= v_damping <= FX_ONE,
        ensures
            r.wf(),
            r.pos@.len() == n,
            r.gravity == gravity,
            r.v_damping == v_damping,
            forall|i: int|
                0 <= i < n ==> #[trigger] r.pos@[i] == (Vec2 { x: 0, y: 0 }) && r.old_pos@[i] == (
                Vec2 { x: 0, y: 0 }) && !r.active@[i],
    {
        let mut pos: Vec<Vec2> = Vec::new();
        let mut old_pos: Vec<Vec2> = Vec::new();
        let mut active: Vec<bool> = Vec::new();
        let mut i: usize = 0;
        while i < n
            invariant
                i <= n,
                pos@.len() == i,
                old_pos@.len() == i,
                active@.len() == i,
                forall|k: int|
                    0 <= k < i ==> #[trigger] pos@[k] == (Vec2 { x: 0, y: 0 }) && old_pos@[k] == (
                    Vec2 { x: 0, y: 0 }) && !active@[k],
            decreases n - i,
        {
            pos.push(vec2(0, 0));
            old_pos.push(vec2(0, 0));
            active.push(false);
            i += 1;
        }
        ParticleSystem { pos, old_pos, active, gravity, v_damping }
    }

    /// One Verlet step for every active joint with index in `[a, b]`.
    pub fn do_verlet_timestep_for(&mut self, a: usize, b: usize)
        requires
            old(self).wf(),
            a <= b,
            b < old(self).pos@.len(),
            b < usize::MAX,
            forall|i: int|
                a <= i <= b && old(self).active@[i] ==> in_box(
                    #[trigger] old(self).pos@[i],
                    1_500_000_000,
                ) && in_box(old(self).old_pos@[i], 1_500_000_000),
        ensures
            final(self).wf(),
            final(self).pos@.len() == old(self).pos@.len(),
            final(self).active@ == old(self).active@,
            final(self).gravity == old(self).gravity,
            final(self).v_damping == old(self).v_damping,
            forall|i: int|
                0 <= i < old(self).pos@.len() && !(a <= i <= b && old(self).active@[i])
                    ==> #[trigger] final(self).pos@[i] == old(self).pos@[i],
            forall|i: int|
                0 <= i < old(self).pos@.len() && !(a <= i <= b && old(self).active@[i])
                    ==> #[trigger] final(self).old_pos@[i] == old(self).old_pos@[i],
            forall|i: int|
                a <= i <= b && old(self).active@[i] ==> #[trigger] final(self).pos@[i].x
                    == verlet_x(*old(self), i) && final(self).pos@[i].y == verlet_y(
                    *old(self),
                    i,
                ) && final(self).old_pos@[i] == old(self).pos@[i] && iabs(
                    final(self).pos@[i].x as int,
                ) <= iabs(old(self).pos@[i].x as int) + iabs(
                    old(self).pos@[i].x - old(self).old_pos@[i].x,
                ) && iabs(final(self).pos@[i].y as int) <= iabs(old(self).pos@[i].y as int) + iabs(
                    old(self).pos@[i].y - old(self).old_pos@[i].y,
                ) + FX_ONE,
    {
        let mut i: usize = a;
        while i <= b
            invariant
                old(self).wf(),
                a <= i <= b + 1,
                b < old(self).pos@.len(),
                b < usize::MAX,
                self.pos@.len() == old(self).pos@.len(),
                self.old_pos@.len() == old(self).old_pos@.len(),
                self.active@ == old(self).active@,
                self.gravity == old(self).gravity,
                self.v_damping == old(self).v_damping,
                forall|k: int|
                    a <= k <= b && old(self).active@[k] ==> in_box(
                        #[trigger] old(self).pos@[k],
                        1_500_000_000,
                    ) && in_box(old(self).old_pos@[k], 1_500_000_000),
                forall|k: int|
                    0 <= k < old(self).pos@.len() && !(a <= k < i && old(self).active@[k])
                        ==> #[trigger] self.pos@[k] == old(self).pos@[k],
                forall|k: int|
                    0 <= k < old(self).pos@.len() && !(a <= k < i && old(self).active@[k])
                        ==> #[trigger] self.old_pos@[k] == old(self).old_pos@[k],
                forall|k: int|
                    a <= k < i && old(self).active@[k] ==> #[trigger] self.pos@[k].x == verlet_x(
                        *old(self),
                        k,
                    ) && self.pos@[k].y == verlet_y(*old(self), k) && self.old_pos@[k] == old(self).pos@[k] && iabs(self.pos@[k].x as int) <= iabs(old(self).pos@[k].x as int)
                        + iabs(old(self).pos@[k].x - old(self).old_pos@[k].x) && iabs(
                        self.pos@[k].y as int,
                    ) <= iabs(old(self).pos@[k].y as int) + iabs(
                        old(self).pos@[k].y - old(self).old_pos@[k].y,
                    ) + FX_ONE,
            decreases b + 1 - i,
        {
            if self.active[i] {
                let p: Vec2 = self.pos[i];
                let o: Vec2 = self.old_pos[i];
                let dx: i64 = p.x - o.x;
                let dy: i64 = p.y - o.y;
                proof {
                    lemma_fmul_bound(dx as int, self.v_damping as int, iabs(dx as int), FX_ONE as int);
                    lemma_fmul_bound(dy as int, self.v_damping as int, iabs(dy as int), FX_ONE as int);
                    assert(iabs(dx as int) * (FX_ONE as int) / (FX_ONE as int) == iabs(dx as int)
                        && iabs(dy as int) * (FX_ONE as int) / (FX_ONE as int) == iabs(dy as int))
                        by (nonlinear_arith);
                }
                let mx: i64 = fmul(dx, self.v_damping);
                let my: i64 = fmul(dy, self.v_damping);
                let nx: i64 = p.x + mx;
                let ny: i64 = p.y + my + self.gravity;
                self.old_pos[i] = p;
                self.pos[i] = vec2(nx, ny);
            }
            i += 1;
            proof {
                assert forall|k: int|
                    0 <= k < old(self).pos@.len() && !(a <= k < i && old(
                        self,
                    ).active@[k]) implies self.pos@[k] == old(self).pos@[k] by {
                    if k == i - 1 {
                        assert(!old(self).active@[k]);
                    }
                }
                assert forall|k: int|
                    0 <= k < old(self).pos@.len() && !(a <= k < i && old(
                        self,
                    ).active@[k]) implies self.old_pos@[k] == old(self).old_pos@[k] by {
                    if k == i - 1 {
                        assert(!old(self).active@[k]);
                    }
                }
            }
        }
    }

    /// One Verlet step for every active joint.
    pub fn do_verlet_timestep(&mut self)
        requires
            old(self).wf(),
            old(self).pos@.len() >= 1,
            forall|i: int|
                0 <= i < old(self).pos@.len() && old(self).active@[i] ==> in_box(
                    #[trigger] old(self).pos@[i],
                    1_500_000_000,
                ) && in_box(old(self).old_pos@[i], 1_500_000_000),
        ensures
            final(self).wf(),
            final(self).pos@.len() == old(self).pos@.len(),
            final(self).active@ == old(self).active@,
            final(self).gravity == old(self).gravity,
            final(self).v_damping == old(self).v_damping,
            forall|i: int|
                0 <= i < old(self).pos@.len() && !old(self).active@[i] ==> #[trigger] final(self).pos@[i] == old(self).pos@[i],
            forall|i: int|
                0 <= i < old(self).pos@.len() && !old(self).active@[i] ==> #[trigger] final(self).old_pos@[i] == old(self).old_pos@[i],
            forall|i: int|
                0 <= i < old(self).pos@.len() && old(self).active@[i] ==> #[trigger] final(self).pos@[i].x == verlet_x(*old(self), i) && final(self).pos@[i].y == verlet_y(
                    *old(self),
                    i,
                ) && final(self).old_pos@[i] == old(self).pos@[i] && iabs(
                    final(self).pos@[i].x as int,
                ) <= iabs(old(self).pos@[i].x as int) + iabs(
                    old(self).pos@[i].x - old(self).old_pos@[i].x,
                ) && iabs(final(self).pos@[i].y as int) <= iabs(old(self).pos@[i].y as int) + iabs(
                    old(self).pos@[i].y - old(self).old_pos@[i].y,
                ) + FX_ONE,
    {
        let last: usize = self.pos.len() - 1;
        proof {
            assert forall|i: int|
                0 <= i <= last && old(self).active@[i] implies (in_box(
                old(self).pos@[i],
                1_500_000_000,
            ) && in_box(old(self).old_pos@[i], 1_500_000_000)) by {
                assert(0 <= i < old(self).pos@.len() && old(self).active@[i]);
                assert(in_box(old(self).pos@[i], 1_500_000_000));
                assert(in_box(old(self).old_pos@[i], 1_500_000_000));
            }
        }
        self.do_verlet_timestep_for(0, last);
    }
}

} // verus!
