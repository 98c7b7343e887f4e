//! The particle pool: positions and velocities kept index-aligned under a
//! fixed capacity, filled frame by frame and advanced by a caller's rule.

use crate::draw::render::{frame, Command, Draw, INSTANCE_BYTES};
use crate::emission::{emitted, least, lemma_emitted_is_least, len_after};
use glam::Vec3;
use vstd::prelude::*;

verus! {

/// The most particles that the default stage holds.
pub const MAX_PARTICLES: usize = 256 * 1024;

/// Particles that the default stage emits per frame.
pub const NUM_PARTICLES_EMITTED_PER_FRAME: usize = 100000;

/// A stage as contracts see it: the particles in the order they were
/// emitted, and the two limits the stage was made with.
pub struct Pool {
    pub positions: Seq<Vec3>,
    /// The velocity of the particle at the same index of `positions`.
    pub velocities: Seq<Vec3>,
    pub capacity: nat,
    pub emit_per_frame: nat,
}

/// The particles of one simulation and the plan of the renderer that shows
/// them. Particles are never removed.
pub struct Stage {
    draw: Draw,
    pos: Vec<Vec3>,
    vel: Vec<Vec3>,
    emit_per_frame: usize,
}

impl Pool {
    /// The number of particles.
    pub open spec fn len(self) -> nat {
        self.positions.len()
    }

    /// Every particle has a position and a velocity, and there are no more
    /// of them than the capacity.
    pub open spec fn bounded(self) -> bool {
        self.positions.len() == self.velocities.len() && self.positions.len() <= self.capacity
    }
}

/// `after` is `before` with one frame's emission appended, each new particle
/// one that `spawn` may return.
pub open spec fn spawned<F: Fn() -> (Vec3, Vec3)>(before: Pool, after: Pool, spawn: F) -> bool {
    &&& after.capacity == before.capacity
    &&& after.emit_per_frame == before.emit_per_frame
    &&& after.positions.len() == before.len() + emitted(
        before.len(),
        before.capacity,
        before.emit_per_frame,
    )
    &&& after.velocities.len() == after.positions.len()
    &&& after.positions.subrange(0, before.len() as int) == before.positions
    &&& after.velocities.subrange(0, before.len() as int) == before.velocities
    &&& forall|i: int|
        before.len() <= i < after.len() ==> call_ensures(
            spawn,
            (),
            (#[trigger] after.positions[i], after.velocities[i]),
        )
}

/// `step` accepts every particle of the pool.
pub open spec fn steps_all<G: Fn(Vec3, Vec3) -> (Vec3, Vec3)>(pool: Pool, step: G) -> bool {
    forall|i: int|
        0 <= i < pool.len() ==> call_requires(
            step,
            (#[trigger] pool.positions[i], pool.velocities[i]),
        )
}

/// `after` is `before` with every particle replaced by what `step` may
/// return for it.
pub open spec fn stepped<G: Fn(Vec3, Vec3) -> (Vec3, Vec3)>(
    before: Pool,
    after: Pool,
    step: G,
) -> bool {
    &&& after.capacity == before.capacity
    &&& after.emit_per_frame == before.emit_per_frame
    &&& after.positions.len() == before.positions.len()
    &&& after.velocities.len() == before.velocities.len()
    &&& forall|i: int|
        0 <= i < before.len() ==> call_ensures(
            step,
            (before.positions[i], before.velocities[i]),
            (#[trigger] after.positions[i], after.velocities[i]),
        )
}

impl View for Stage {
    type V = Pool;

    closed spec fn view(&self) -> Pool {
        Pool {
            positions: self.pos@,
            velocities: self.vel@,
            capacity: self.draw.capacity(),
            emit_per_frame: self.emit_per_frame as nat,
        }
    }
}

impl Stage {
    /// The renderer's plan that the stage was made with.
    pub closed spec fn plan(&self) -> Draw {
        self.draw
    }

    /// The pool is within its bounds, and the renderer was planned for the
    /// pool's capacity.
    pub open spec fn wf(&self) -> bool {
        &&& self@.bounded()
        &&& self.plan().wf()
        &&& self.plan().capacity() == self@.capacity
    }

    /// An empty stage of the default limits.
    pub fn new() -> (s: Stage)
        ensures
            s.wf(),
            s@.positions.len() == 0,
            s@.capacity == MAX_PARTICLES,
            s@.emit_per_frame == NUM_PARTICLES_EMITTED_PER_FRAME,
    {
        Stage::with_limits(MAX_PARTICLES, NUM_PARTICLES_EMITTED_PER_FRAME)
    }

    /// An empty stage that holds at most `max_particles` particles and emits
    /// up to `emit_per_frame` of them per frame.
    pub fn with_limits(max_particles: usize, emit_per_frame: usize) -> (s: Stage)
        requires
            max_particles * INSTANCE_BYTES <= isize::MAX,
            max_particles <= i32::MAX,
        ensures
            s.wf(),
            s@.positions.len() == 0,
            s@.capacity == max_particles,
            s@.emit_per_frame == emit_per_frame,
    {
        Stage {
            draw: Draw::new(max_particles),
            pos: Vec::with_capacity(max_particles),
            vel: Vec::with_capacity(max_particles),
            emit_per_frame,
        }
    }

    /// The number of particles.
    pub fn len(&self) -> (n: usize)
        requires
            self.wf(),
        ensures
            n == self@.positions.len(),
            n == self@.velocities.len(),
            n <= self@.capacity,
    {
        self.pos.len()
    }

    /// Whether emission has stopped for good.
    pub fn is_full(&self) -> (full: bool)
        requires
            self.wf(),
        ensures
            full == (self@.len() == self@.capacity),
    {
        self.pos.len() >= self.draw.max_particles()
    }

    /// The most particles that the stage holds.
    pub fn max_particles(&self) -> (n: usize)
        ensures
            n == self@.capacity,
    {
        self.draw.max_particles()
    }

    /// The most particles that one frame adds.
    pub fn emit_per_frame(&self) -> (n: usize)
        ensures
            n == self@.emit_per_frame,
    {
        self.emit_per_frame
    }

    /// Where the particles are, in the order they were emitted.
    pub fn positions(&self) -> (pos: &Vec<Vec3>)
        ensures
            pos@ == self@.positions,
    {
        &self.pos
    }

    /// How the particles move, index for index with the positions.
    pub fn velocities(&self) -> (vel: &Vec<Vec3>)
        ensures
            vel@ == self@.velocities,
    {
        &self.vel
    }

    /// The plan of the renderer that shows the stage.
    pub fn renderer(&self) -> (draw: &Draw)
        ensures
            *draw == self.plan(),
    {
        &self.draw
    }

    /// Particles that the next frame will add.
    pub fn room(&self) -> (n: usize)
        requires
            self.wf(),
        ensures
            n == emitted(self@.len(), self@.capacity, self@.emit_per_frame),
    {
        let free: usize = self.draw.max_particles() - self.pos.len();
        if self.emit_per_frame <= free {
            self.emit_per_frame
        } else {
            free
        }
    }

    /// Appends one frame's emission: `spawn` is asked for one particle after
    /// another, and no more once the stage is full.
    pub fn emit<F: Fn() -> (Vec3, Vec3)>(&mut self, spawn: F)
        requires
            old(self).wf(),
            call_requires(spawn, ()),
        ensures
            final(self).wf(),
            final(self).plan() == old(self).plan(),
            spawned(old(self)@, final(self)@, spawn),
    {
        let ghost before = self@;
        let mut count: usize = 0;
        while count < self.emit_per_frame && self.pos.len() < self.draw.max_particles()
            invariant
                self.draw == old(self).draw,
                self.emit_per_frame == old(self).emit_per_frame,
                before == old(self)@,
                before.bounded(),
                call_requires(spawn, ()),
                count <= self.emit_per_frame,
                self.pos@.len() == before.len() + count,
                self.vel@.len() == self.pos@.len(),
                self.pos@.len() <= before.capacity,
                self.pos@.subrange(0, before.len() as int) == before.positions,
                self.vel@.subrange(0, before.len() as int) == before.velocities,
                forall|i: int|
                    before.len() <= i < self.pos@.len() ==> call_ensures(
                        spawn,
                        (),
                        (#[trigger] self.pos@[i], self.vel@[i]),
                    ),
            decreases self.emit_per_frame - count,
        {
            let ghost pos_before = self.pos@;
            let ghost vel_before = self.vel@;
            let (p, v) = spawn();
            self.pos.push(p);
            self.vel.push(v);
            count += 1;
            proof {
                assert(self.pos@.subrange(0, before.len() as int) =~= pos_before.subrange(
                    0,
                    before.len() as int,
                ));
                assert(self.vel@.subrange(0, before.len() as int) =~= vel_before.subrange(
                    0,
                    before.len() as int,
                ));
            }
        }
    }

    /// Replaces every particle by what `step` makes of its position and
    /// velocity.
    pub fn advance<G: Fn(Vec3, Vec3) -> (Vec3, Vec3)>(&mut self, step: G)
        requires
            old(self).wf(),
            steps_all(old(self)@, step),
        ensures
            final(self).wf(),
            final(self).plan() == old(self).plan(),
            stepped(old(self)@, final(self)@, step),
    {
        let ghost before = self@;
        let n: usize = self.pos.len();
        let mut i: usize = 0;
        while i < n
            invariant
                self.draw == old(self).draw,
                self.emit_per_frame == old(self).emit_per_frame,
                before == old(self)@,
                steps_all(before, step),
                i <= n,
                n == before.positions.len(),
                n == before.velocities.len(),
                self.pos@.len() == n,
                self.vel@.len() == n,
                forall|j: int|
                    0 <= j < i ==> call_ensures(
                        step,
                        (before.positions[j], before.velocities[j]),
                        (#[trigger] self.pos@[j], self.vel@[j]),
                    ),
                forall|j: int| i <= j < n ==> #[trigger] self.pos@[j] == before.positions[j],
                forall|j: int| i <= j < n ==> #[trigger] self.vel@[j] == before.velocities[j],
            decreases n - i,
        {
            let (p, v) = step(self.pos[i], self.vel[i]);
            self.pos.set(i, p);
            self.vel.set(i, v);
            i += 1;
        }
    }

    /// One frame of simulation: emission first, then `step` on every
    /// particle, the new ones included.
    pub fn update<F: Fn() -> (Vec3, Vec3), G: Fn(Vec3, Vec3) -> (Vec3, Vec3)>(
        &mut self,
        spawn: F,
        step: G,
    )
        requires
            old(self).wf(),
            call_requires(spawn, ()),
            steps_all(old(self)@, step),
            forall|p: Vec3, v: Vec3|
                call_ensures(spawn, (), (p, v)) ==> call_requires(step, (p, v)),
        ensures
            final(self).wf(),
            final(self).plan() == old(self).plan(),
            final(self)@.capacity == old(self)@.capacity,
            final(self)@.emit_per_frame == old(self)@.emit_per_frame,
            final(self)@.len() == old(self)@.len() + emitted(
                old(self)@.len(),
                old(self)@.capacity,
                old(self)@.emit_per_frame,
            ),
            exists|mid: Pool|
                spawned(old(self)@, mid, spawn) && #[trigger] stepped(mid, final(self)@, step),
    {
        self.emit(spawn);
        let ghost mid = self@;
        proof {
            let before = old(self)@;
            assert forall|i: int| 0 <= i < mid.len() implies call_requires(
                step,
                (#[trigger] mid.positions[i], mid.velocities[i]),
            ) by {
                if i < before.len() {
                    assert(mid.positions.subrange(0, before.len() as int)[i] == mid.positions[i]);
                    assert(mid.velocities.subrange(0, before.len() as int)[i]
                        == mid.velocities[i]);
                }
            }
        }
        self.advance(step);
        assert(stepped(mid, self@, step));
    }

    /// The commands of one frame that shows every particle of the stage.
    pub fn draw(&self) -> (commands: Vec<Command>)
        requires
            self.wf(),
        ensures
            commands@ == frame(self@.len()),
    {
        self.draw.draw(&self.pos)
    }
}

/// A frame keeps the pool within its bounds: emission followed by a step
/// leaves as many velocities as positions, and no more than the capacity.
pub proof fn lemma_frame_keeps_bounds<F: Fn() -> (Vec3, Vec3), G: Fn(Vec3, Vec3) -> (Vec3, Vec3)>(
    before: Pool,
    mid: Pool,
    after: Pool,
    spawn: F,
    step: G,
)
    requires
        before.bounded(),
        spawned(before, mid, spawn),
        stepped(mid, after, step),
    ensures
        mid.bounded(),
        after.bounded(),
        after.capacity == before.capacity,
        after.emit_per_frame == before.emit_per_frame,
{
}

/// A frame changes the number of particles as one frame of emission does:
/// the pool grows by the emission rate or by the room that is left,
/// whichever is less, and never shrinks.
pub proof fn lemma_frame_grows_by_emission<
    F: Fn() -> (Vec3, Vec3),
    G: Fn(Vec3, Vec3) -> (Vec3, Vec3),
>(before: Pool, mid: Pool, after: Pool, spawn: F, step: G)
    requires
        before.bounded(),
        spawned(before, mid, spawn),
        stepped(mid, after, step),
    ensures
        after.len() == len_after(before.len(), before.capacity, before.emit_per_frame, 1),
        after.len() == before.len() + least(
            before.emit_per_frame,
            (before.capacity - before.len()) as nat,
        ),
        before.len() <= after.len(),
        before.len() == before.capacity ==> after.len() == before.capacity,
{
    assert(len_after(before.len(), before.capacity, before.emit_per_frame, 0) == before.len());
    lemma_emitted_is_least(before.len(), before.capacity, before.emit_per_frame);
}

} // verus!
