//! Point-mass particles and their symplectic-Euler integrator.
//!
//! A particle owns its state (position, velocity, previous position) and a
//! force accumulator. The accumulator is cleared by the owning system at the
//! start of every sub-step, never by the particle itself. Integration is
//! semi-implicit Euler: the velocity is updated from the accumulated force
//! first, and the *new* velocity then advances the position — this order is
//! the defining numerical contract and is pinned by `integrate_spec`.

use vstd::prelude::*;
use crate::fixed::SCALE;
use crate::vec2::{v_add, v_divide, v_scale, v_sub, v_zero, Vec2};

verus! {

/// Default mass of a newly constructed particle (10.0).
pub const DEFAULT_MASS: i64 = 10 * SCALE;

/// Default radius of a newly constructed particle (10.0).
pub const DEFAULT_RADIUS: i64 = 10 * SCALE;

/// A physical particle: a point mass with fixed-point state.
#[derive(Clone, Copy, PartialEq, Eq, Debug)]
pub struct Particle {
    /// stable id, assigned by the owning system on insertion
    pub id: u32,
    /// mass; must be positive whenever the particle is integrated
    pub mass: i64,
    /// radius, used by constraints that keep the body inside a region
    pub radius: i64,
    /// 32-bit color: (r, g, b, a)
    pub color: (u8, u8, u8, u8),
    /// free number for grouping particles with shared properties
    pub group: u32,
    /// 2-dimensional position
    pub pos: Vec2,
    /// 2-dimensional velocity
    pub vel: Vec2,
    /// position before the last integration, for velocity reconciliation
    pub prev_pos: Vec2,
    /// sum of the force contributions of the current sub-step
    pub force_accum: Vec2,
}

/// The exact effect of one semi-implicit Euler step of size `dt`:
/// `vel += (force/mass) * dt`, then `pos += vel * dt` with the new velocity,
/// remembering the old position.
pub open spec fn integrate_spec(p: Particle, dt: int) -> Particle
    recommends
        p.mass > 0,
{
    let vel1 = v_add(p.vel, v_scale(v_divide(p.force_accum, p.mass as int), dt));
    Particle { vel: vel1, prev_pos: p.pos, pos: v_add(p.pos, v_scale(vel1, dt)), ..p }
}

/// The exact effect of velocity reconciliation: the velocity is recomputed
/// from the displacement actually realised since the last integration.
pub open spec fn reconcile_spec(p: Particle, dt: int) -> Particle
    recommends
        dt != 0,
{
    Particle { vel: v_divide(v_sub(p.pos, p.prev_pos), dt), ..p }
}

/// The particle with its force accumulator cleared.
pub open spec fn cleared_spec(p: Particle) -> Particle {
    Particle { force_accum: v_zero(), ..p }
}

/// The default particle: mass 10, radius 10, crimson, everything else zero.
pub open spec fn default_particle() -> Particle {
    Particle {
        id: 0,
        mass: DEFAULT_MASS,
        radius: DEFAULT_RADIUS,
        color: (220, 20, 60, 255),
        group: 0,
        pos: v_zero(),
        vel: v_zero(),
        prev_pos: v_zero(),
        force_accum: v_zero(),
    }
}

impl Particle {
    /// Constructor function for a default particle.
    pub fn new() -> (p: Particle)
        ensures
            p == default_particle(),
    {
        Particle {
            id: 0,
            mass: DEFAULT_MASS,
            radius: DEFAULT_RADIUS,
            color: (220, 20, 60, 255),
            group: 0,
            pos: Vec2::zero(),
            vel: Vec2::zero(),
            prev_pos: Vec2::zero(),
            force_accum: Vec2::zero(),
        }
    }

    /// A builder method to give the particle a specific mass.
    pub fn mass(self, mass: i64) -> (p: Particle)
        ensures
            p == (Particle { mass, ..self }),
    {
        Particle { mass, ..self }
    }

    /// A builder method to give the particle a specific radius.
    pub fn radius(self, radius: i64) -> (p: Particle)
        ensures
            p == (Particle { radius, ..self }),
    {
        Particle { radius, ..self }
    }

    /// A builder method to give the particle a specific color.
    pub fn color(self, color: (u8, u8, u8, u8)) -> (p: Particle)
        ensures
            p == (Particle { color, ..self }),
    {
        Particle { color, ..self }
    }

    /// A builder method to give the particle a specific id.
    pub fn id(self, id: u32) -> (p: Particle)
        ensures
            p == (Particle { id, ..self }),
    {
        Particle { id, ..self }
    }

    /// A builder method to give the particle a specific group.
    pub fn group(self, group: u32) -> (p: Particle)
        ensures
            p == (Particle { group, ..self }),
    {
        Particle { group, ..self }
    }

    /// A builder method to give the particle a specific position.
    pub fn pos(self, x: i64, y: i64) -> (p: Particle)
        ensures
            p == (Particle { pos: Vec2 { x, y }, ..self }),
    {
        Particle { pos: Vec2 { x, y }, ..self }
    }

    /// A builder method to give the particle a specific velocity.
    pub fn vel(self, vel_x: i64, vel_y: i64) -> (p: Particle)
        ensures
            p == (Particle { vel: Vec2 { x: vel_x, y: vel_y }, ..self }),
    {
        Particle { vel: Vec2 { x: vel_x, y: vel_y }, ..self }
    }

    /// One semi-implicit (symplectic) Euler step of size `dt`.
    pub fn update(&mut self, dt: i64)
        requires
            old(self).mass > 0,
        ensures
            *final(self) == integrate_spec(*old(self), dt as int),
    {
        let accel = self.force_accum.divide(self.mass);
        let vel1 = self.vel.add(accel.scale(dt));
        self.vel = vel1;
        self.prev_pos = self.pos;
        self.pos = self.pos.add(vel1.scale(dt));
    }

    /// Recompute the velocity from the displacement realised since the last
    /// integration; used after constraint projection has moved the position.
    pub fn update_vel(&mut self, dt: i64)
        requires
            dt != 0,
        ensures
            *final(self) == reconcile_spec(*old(self), dt as int),
    {
        self.vel = self.pos.sub(self.prev_pos).divide(dt);
    }

    /// Clear the force accumulator (called by the system at the start of
    /// every sub-step).
    pub fn clear_force(&mut self)
        ensures
            *final(self) == cleared_spec(*old(self)),
    {
        self.force_accum = Vec2::zero();
    }
}

/// Index of the first particle with the given id at or after position `j`,
/// or -1 when there is none.
pub open spec fn first_with_id_from(ps: Seq<Particle>, id: u32, j: int) -> int
    decreases ps.len() - j,
{
    if j < 0 || j >= ps.len() {
        -1
    } else if ps[j].id == id {
        j
    } else {
        first_with_id_from(ps, id, j + 1)
    }
}

/// Index of the first particle with the given id, or -1 when there is none.
pub open spec fn first_with_id(ps: Seq<Particle>, id: u32) -> int {
    first_with_id_from(ps, id, 0)
}

/// A found index is a valid index of a particle with the id.
pub broadcast proof fn lemma_first_with_id_from_bounds(ps: Seq<Particle>, id: u32, j: int)
    ensures
        ({
            let r = #[trigger] first_with_id_from(ps, id, j);
            r == -1 || (j <= r && 0 <= r && r < ps.len() && ps[r].id == id)
        }),
    decreases ps.len() - j,
{
    if 0 <= j < ps.len() && ps[j].id != id {
        lemma_first_with_id_from_bounds(ps, id, j + 1);
    }
}

/// Resolve a particle id to its index in the table.
pub fn find_particle(ps: &Vec<Particle>, id: u32) -> (r: Option<usize>)
    ensures
        match r {
            Some(i) => first_with_id(ps@, id) == i as int && i < ps.len() && ps@[i as int].id
                == id,
            None => first_with_id(ps@, id) == -1,
        },
{
    let mut j: usize = 0;
    while j < ps.len()
        invariant
            j <= ps.len(),
            first_with_id(ps@, id) == first_with_id_from(ps@, id, j as int),
        decreases ps.len() - j,
    {
        if ps[j].id == id {
            return Some(j);
        }
        j += 1;
    }
    None
}

} // verus!
