//! Force generators.
//!
//! A force references its target particle(s) by id and, when applied, adds a
//! vector contribution to the force accumulator of each referenced particle,
//! resolved through the particle table (a missing id contributes nothing).
//! `apply_force_spec` pins the exact contribution of every variant.
//!
//! Drag here is linear: the contribution is `-coefficient * velocity`, which
//! opposes the velocity with magnitude `coefficient * |velocity|`.

use vstd::prelude::*;
use crate::constraint::ConstraintShape;
use crate::fixed::{fx_add, fx_div, fx_mul, fx_neg, fx_sub, q_add, q_div, q_mul, q_neg, q_sub,
    SCALE};
use crate::particle::{find_particle, first_with_id, Particle};
use crate::vec2::{v_add, v_divide, v_dot, v_mag, v_neg, v_scale, v_sub, Vec2};

verus! {

broadcast use crate::particle::lemma_first_with_id_from_bounds;

/// Force on a particle or between interacting particles.
#[derive(Clone, Copy, PartialEq, Eq, Structural, Debug)]
pub enum Force {
    /// A raw 2d force: the vector itself is the contribution.
    RawForce { target: u32, vector: Vec2 },
    /// A simple downwards pull of gravity: the contribution is (0, -mass*g).
    WorldGravity { target: u32, g: i64 },
    /// Newtonian gravitational attraction between two particles, applied
    /// equal and opposite so that it conserves momentum.
    PairGravity { a: u32, b: u32, gravitational_constant: i64 },
    /// Linear drag opposing the velocity: the contribution is -coefficient*v.
    Drag { target: u32, coefficient: i64 },
    /// A general restoring force `-k*|x|^n*sign(x) - b*xdot` along the
    /// gradient of the scalar function `x` of the referenced constraint
    /// geometry. This generalises springs (stiffness `k`, exponent 1,
    /// damping `b`) and stiff pendulums (high `k`, high `b`).
    ConstraintForce { constraint: ConstraintShape, k: i64, n: u32, b: i64 },
}

/// Fixed-point power: `q_pow(x, 0)` is 1.0 (`SCALE` raw units), and each
/// further factor multiplies by `x` with fixed-point rescaling.
pub open spec fn q_pow(x: int, n: nat) -> int
    decreases n,
{
    if n == 0 {
        SCALE as int
    } else {
        q_mul(x, q_pow(x, (n - 1) as nat))
    }
}

/// `sign(x) * |x|^n` in fixed point.
pub open spec fn signed_pow(x: int, n: nat) -> int {
    if x >= 0 {
        q_pow(x, n)
    } else {
        q_neg(q_pow(q_neg(x), n))
    }
}

/// The scalar magnitude of a restoring force: `-k*|x|^n*sign(x) - b*xdot`.
pub open spec fn restoring_magnitude(x: int, xdot: int, k: int, n: nat, b: int) -> int {
    q_sub(q_neg(q_mul(k, signed_pow(x, n))), q_mul(b, xdot))
}

/// The particle sequence with the vector `v` added to the force accumulator
/// of the particle at index `i`.
pub open spec fn accum_added(ps: Seq<Particle>, i: int, v: Vec2) -> Seq<Particle>
    recommends
        0 <= i < ps.len(),
{
    ps.update(i, Particle { force_accum: v_add(ps[i].force_accum, v), ..ps[i] })
}

/// A restoring-force contribution applied to one participant: the rate of
/// change of the constraint function is the gradient dotted with the
/// velocity, and the contribution is the magnitude along the gradient.
pub open spec fn restoring_applied_one(
    ps: Seq<Particle>,
    i: int,
    grad: Vec2,
    x: int,
    k: int,
    n: nat,
    b: int,
) -> Seq<Particle>
    recommends
        0 <= i < ps.len(),
{
    let xdot = v_dot(grad, ps[i].vel);
    let m = restoring_magnitude(x, xdot, k, n, b);
    accum_added(ps, i, v_scale(grad, m))
}

/// A restoring-force contribution applied to two linked participants; the
/// rate of change sums the gradient-velocity products of both.
pub open spec fn restoring_applied_pair(
    ps: Seq<Particle>,
    i: int,
    j: int,
    grad_i: Vec2,
    grad_j: Vec2,
    x: int,
    k: int,
    n: nat,
    b: int,
) -> Seq<Particle>
    recommends
        0 <= i < ps.len(),
        0 <= j < ps.len(),
        i != j,
{
    let xdot = q_add(v_dot(grad_i, ps[i].vel), v_dot(grad_j, ps[j].vel));
    let m = restoring_magnitude(x, xdot, k, n, b);
    accum_added(accum_added(ps, i, v_scale(grad_i, m)), j, v_scale(grad_j, m))
}

/// The contribution of newtonian pair gravity to particle `pa` (its partner
/// receives the exact negation): magnitude `G*m1*m2 / |delta|^2` along the
/// unit separation vector from `pa` toward `pb`.
pub open spec fn pair_gravity_pull(pa: Particle, pb: Particle, g: int) -> Vec2 {
    let delta = v_sub(pb.pos, pa.pos);
    let d = v_mag(delta);
    let d2 = q_add(q_mul(delta.x as int, delta.x as int), q_mul(delta.y as int, delta.y as int));
    let m = q_div(q_mul(q_mul(g, pa.mass as int), pb.mass as int), d2);
    v_scale(v_divide(delta, d), m)
}

/// The restoring-force contribution of a constraint geometry, as the update
/// it makes to the particle sequence. Geometries without a usable gradient
/// at the current positions (missing ids, zero separations, a zero-length
/// boundary line, a rectangle) contribute nothing.
pub open spec fn constraint_force_spec(
    ps: Seq<Particle>,
    shape: ConstraintShape,
    k: int,
    n: nat,
    b: int,
) -> Seq<Particle> {
    match shape {
        ConstraintShape::PinToPoint { particle, point } => {
            let i = first_with_id(ps, particle);
            if i < 0 {
                ps
            } else {
                let delta = v_sub(ps[i].pos, point);
                let d = v_mag(delta);
                if d == 0 {
                    ps
                } else {
                    restoring_applied_one(ps, i, v_divide(delta, d), d, k, n, b)
                }
            }
        },
        ConstraintShape::FixedDistance { particle, point, dist } => {
            let i = first_with_id(ps, particle);
            if i < 0 {
                ps
            } else {
                let delta = v_sub(ps[i].pos, point);
                let d = v_mag(delta);
                if d == 0 {
                    ps
                } else {
                    restoring_applied_one(ps, i, v_divide(delta, d), q_sub(d, dist as int), k, n,
                        b)
                }
            }
        },
        ConstraintShape::MinDistance { particle, point, dist } => {
            let i = first_with_id(ps, particle);
            if i < 0 {
                ps
            } else {
                let delta = v_sub(ps[i].pos, point);
                let d = v_mag(delta);
                if d == 0 {
                    ps
                } else {
                    restoring_applied_one(ps, i, v_divide(delta, d), q_sub(d, dist as int), k, n,
                        b)
                }
            }
        },
        ConstraintShape::MaxDistance { particle, point, dist } => {
            let i = first_with_id(ps, particle);
            if i < 0 {
                ps
            } else {
                let delta = v_sub(ps[i].pos, point);
                let d = v_mag(delta);
                if d == 0 {
                    ps
                } else {
                    restoring_applied_one(ps, i, v_neg(v_divide(delta, d)), q_sub(dist as int, d),
                        k, n, b)
                }
            }
        },
        ConstraintShape::LinkFixedDistance { particle1, particle2, dist } => {
            let i = first_with_id(ps, particle1);
            let j = first_with_id(ps, particle2);
            if i < 0 || j < 0 || i == j {
                ps
            } else {
                let delta = v_sub(ps[i].pos, ps[j].pos);
                let d = v_mag(delta);
                if d == 0 {
                    ps
                } else {
                    let unit = v_divide(delta, d);
                    restoring_applied_pair(ps, i, j, unit, v_neg(unit), q_sub(d, dist as int), k,
                        n, b)
                }
            }
        },
        ConstraintShape::LinkMinDistance { particle1, particle2, dist } => {
            let i = first_with_id(ps, particle1);
            let j = first_with_id(ps, particle2);
            if i < 0 || j < 0 || i == j {
                ps
            } else {
                let delta = v_sub(ps[i].pos, ps[j].pos);
                let d = v_mag(delta);
                if d == 0 {
                    ps
                } else {
                    let unit = v_divide(delta, d);
                    restoring_applied_pair(ps, i, j, unit, v_neg(unit), q_sub(d, dist as int), k,
                        n, b)
                }
            }
        },
        ConstraintShape::LinkMaxDistance { particle1, particle2, dist } => {
            let i = first_with_id(ps, particle1);
            let j = first_with_id(ps, particle2);
            if i < 0 || j < 0 || i == j {
                ps
            } else {
                let delta = v_sub(ps[i].pos, ps[j].pos);
                let d = v_mag(delta);
                if d == 0 {
                    ps
                } else {
                    let unit = v_divide(delta, d);
                    restoring_applied_pair(ps, i, j, v_neg(unit), unit, q_sub(dist as int, d), k,
                        n, b)
                }
            }
        },
        ConstraintShape::BoundaryLine { particle, start, end } => {
            let i = first_with_id(ps, particle);
            if i < 0 {
                ps
            } else {
                let e = v_sub(end, start);
                let len = v_mag(e);
                if len == 0 {
                    ps
                } else {
                    let x = crate::constraint::line_side(ps[i].pos, start, end);
                    let grad = v_divide(Vec2 { x: q_neg(e.y as int) as i64, y: e.x }, len);
                    restoring_applied_one(ps, i, grad, x, k, n, b)
                }
            }
        },
        ConstraintShape::StayInRect { .. } => ps,
    }
}

/// The exact effect of applying a force to the particle table: which
/// accumulators change and by what vector.
pub open spec fn apply_force_spec(f: Force, ps: Seq<Particle>) -> Seq<Particle> {
    match f {
        Force::RawForce { target, vector } => {
            let i = first_with_id(ps, target);
            if i < 0 {
                ps
            } else {
                accum_added(ps, i, vector)
            }
        },
        Force::WorldGravity { target, g } => {
            let i = first_with_id(ps, target);
            if i < 0 {
                ps
            } else {
                accum_added(
                    ps,
                    i,
                    Vec2 { x: 0, y: q_neg(q_mul(ps[i].mass as int, g as int)) as i64 },
                )
            }
        },
        Force::PairGravity { a, b, gravitational_constant } => {
            let i = first_with_id(ps, a);
            let j = first_with_id(ps, b);
            if i < 0 || j < 0 || i == j {
                ps
            } else {
                let delta = v_sub(ps[j].pos, ps[i].pos);
                let d = v_mag(delta);
                let d2 = q_add(q_mul(delta.x as int, delta.x as int),
                    q_mul(delta.y as int, delta.y as int));
                if d == 0 || d2 == 0 {
                    ps
                } else {
                    let pull = pair_gravity_pull(ps[i], ps[j], gravitational_constant as int);
                    accum_added(accum_added(ps, i, pull), j, v_neg(pull))
                }
            }
        },
        Force::Drag { target, coefficient } => {
            let i = first_with_id(ps, target);
            if i < 0 {
                ps
            } else {
                accum_added(ps, i, v_scale(ps[i].vel, q_neg(coefficient as int)))
            }
        },
        Force::ConstraintForce { constraint, k, n, b } => {
            constraint_force_spec(ps, constraint, k as int, n as nat, b as int)
        },
    }
}

/// Fixed-point power by repeated multiplication.
pub fn fx_pow(x: i64, n: u32) -> (r: i64)
    ensures
        r as int == q_pow(x as int, n as nat),
{
    let mut acc: i64 = SCALE;
    let mut i: u32 = 0;
    while i < n
        invariant
            i <= n,
            acc as int == q_pow(x as int, i as nat),
        decreases n - i,
    {
        acc = fx_mul(x, acc);
        i = i + 1;
    }
    acc
}

/// `sign(x) * |x|^n` in fixed point.
pub fn fx_signed_pow(x: i64, n: u32) -> (r: i64)
    ensures
        r as int == signed_pow(x as int, n as nat),
{
    if x >= 0 {
        fx_pow(x, n)
    } else {
        fx_neg(fx_pow(fx_neg(x), n))
    }
}

/// Add `v` to the force accumulator of the particle at index `i`.
fn add_contribution(particles: &mut Vec<Particle>, i: usize, v: Vec2)
    requires
        i < old(particles).len(),
    ensures
        final(particles)@ == accum_added(old(particles)@, i as int, v),
{
    let a = particles[i].force_accum.add(v);
    particles[i].force_accum = a;
}

/// The scalar magnitude of a restoring force.
fn restoring_mag(x: i64, xdot: i64, k: i64, n: u32, b: i64) -> (r: i64)
    ensures
        r as int == restoring_magnitude(x as int, xdot as int, k as int, n as nat, b as int),
{
    fx_sub(fx_neg(fx_mul(k, fx_signed_pow(x, n))), fx_mul(b, xdot))
}

impl Force {
    /// Compute this force's contribution and add it to the accumulator of
    /// each referenced particle, resolved by id through the particle table.
    /// A missing id, or geometry with no defined direction (a zero
    /// separation, a zero-length line, a sub-resolution squared distance),
    /// contributes nothing.
    pub fn apply(&self, particles: &mut Vec<Particle>)
        ensures
            final(particles)@ == apply_force_spec(*self, old(particles)@),
    {
        match *self {
            Force::RawForce { target, vector } => {
                if let Some(i) = find_particle(particles, target) {
                    add_contribution(particles, i, vector);
                }
            },
            Force::WorldGravity { target, g } => {
                if let Some(i) = find_particle(particles, target) {
                    let m = particles[i].mass;
                    add_contribution(particles, i, Vec2 { x: 0, y: fx_neg(fx_mul(m, g)) });
                }
            },
            Force::PairGravity { a, b, gravitational_constant } => {
                if let Some(i) = find_particle(particles, a) {
                    if let Some(j) = find_particle(particles, b) {
                        if i != j {
                            let pa = particles[i];
                            let pb = particles[j];
                            let delta = pb.pos.sub(pa.pos);
                            let d = delta.mag();
                            let d2 = fx_add(fx_mul(delta.x, delta.x), fx_mul(delta.y, delta.y));
                            if d != 0 && d2 != 0 {
                                let m = fx_div(
                                    fx_mul(fx_mul(gravitational_constant, pa.mass), pb.mass),
                                    d2,
                                );
                                let pull = delta.divide(d).scale(m);
                                add_contribution(particles, i, pull);
                                add_contribution(particles, j, pull.neg());
                            }
                        }
                    }
                }
            },
            Force::Drag { target, coefficient } => {
                if let Some(i) = find_particle(particles, target) {
                    let vel = particles[i].vel;
                    add_contribution(particles, i, vel.scale(fx_neg(coefficient)));
                }
            },
            Force::ConstraintForce { constraint, k, n, b } => {
                apply_constraint_force(particles, constraint, k, n, b);
            },
        }
    }
}

/// Apply the restoring force of a constraint geometry.
fn apply_constraint_force(
    particles: &mut Vec<Particle>,
    shape: ConstraintShape,
    k: i64,
    n: u32,
    b: i64,
)
    ensures
        final(particles)@ == constraint_force_spec(old(particles)@, shape, k as int, n as nat,
            b as int),
{
    match shape {
        ConstraintShape::PinToPoint { particle, point } => {
            if let Some(i) = find_particle(particles, particle) {
                let p = particles[i];
                let delta = p.pos.sub(point);
                let d = delta.mag();
                if d != 0 {
                    apply_restoring_one(particles, i, delta.divide(d), d, k, n, b);
                }
            }
        },
        ConstraintShape::FixedDistance { particle, point, dist } => {
            if let Some(i) = find_particle(particles, particle) {
                let p = particles[i];
                let delta = p.pos.sub(point);
                let d = delta.mag();
                if d != 0 {
                    apply_restoring_one(particles, i, delta.divide(d), fx_sub(d, dist), k, n, b);
                }
            }
        },
        ConstraintShape::MinDistance { particle, point, dist } => {
            if let Some(i) = find_particle(particles, particle) {
                let p = particles[i];
                let delta = p.pos.sub(point);
                let d = delta.mag();
                if d != 0 {
                    apply_restoring_one(particles, i, delta.divide(d), fx_sub(d, dist), k, n, b);
                }
            }
        },
        ConstraintShape::MaxDistance { particle, point, dist } => {
            if let Some(i) = find_particle(particles, particle) {
                let p = particles[i];
                let delta = p.pos.sub(point);
                let d = delta.mag();
                if d != 0 {
                    apply_restoring_one(particles, i, delta.divide(d).neg(), fx_sub(dist, d), k,
                        n, b);
                }
            }
        },
        ConstraintShape::LinkFixedDistance { particle1, particle2, dist } => {
            if let Some(i) = find_particle(particles, particle1) {
                if let Some(j) = find_particle(particles, particle2) {
                    if i != j {
                        let delta = particles[i].pos.sub(particles[j].pos);
                        let d = delta.mag();
                        if d != 0 {
                            let unit = delta.divide(d);
                            apply_restoring_pair(particles, i, j, unit, unit.neg(),
                                fx_sub(d, dist), k, n, b);
                        }
                    }
                }
            }
        },
        ConstraintShape::LinkMinDistance { particle1, particle2, dist } => {
            if let Some(i) = find_particle(particles, particle1) {
                if let Some(j) = find_particle(particles, particle2) {
                    if i != j {
                        let delta = particles[i].pos.sub(particles[j].pos);
                        let d = delta.mag();
                        if d != 0 {
                            let unit = delta.divide(d);
                            apply_restoring_pair(particles, i, j, unit, unit.neg(),
                                fx_sub(d, dist), k, n, b);
                        }
                    }
                }
            }
        },
        ConstraintShape::LinkMaxDistance { particle1, particle2, dist } => {
            if let Some(i) = find_particle(particles, particle1) {
                if let Some(j) = find_particle(particles, particle2) {
                    if i != j {
                        let delta = particles[i].pos.sub(particles[j].pos);
                        let d = delta.mag();
                        if d != 0 {
                            let unit = delta.divide(d);
                            apply_restoring_pair(particles, i, j, unit.neg(), unit,
                                fx_sub(dist, d), k, n, b);
                        }
                    }
                }
            }
        },
        ConstraintShape::BoundaryLine { particle, start, end } => {
            if let Some(i) = find_particle(particles, particle) {
                let e = end.sub(start);
                let len = e.mag();
                if len != 0 {
                    let p = particles[i];
                    let x = fx_div(e.cross(&p.pos.sub(start)), len);
                    let grad = Vec2 { x: fx_neg(e.y), y: e.x }.divide(len);
                    apply_restoring_one(particles, i, grad, x, k, n, b);
                }
            }
        },
        ConstraintShape::StayInRect { .. } => {},
    }
}

/// Apply a restoring-force contribution to one participant.
fn apply_restoring_one(
    particles: &mut Vec<Particle>,
    i: usize,
    grad: Vec2,
    x: i64,
    k: i64,
    n: u32,
    b: i64,
)
    requires
        i < old(particles).len(),
    ensures
        final(particles)@ == restoring_applied_one(old(particles)@, i as int, grad, x as int,
            k as int, n as nat, b as int),
{
    let xdot = grad.dot(&particles[i].vel);
    let m = restoring_mag(x, xdot, k, n, b);
    add_contribution(particles, i, grad.scale(m));
}

/// Apply a restoring-force contribution to two linked participants.
fn apply_restoring_pair(
    particles: &mut Vec<Particle>,
    i: usize,
    j: usize,
    grad_i: Vec2,
    grad_j: Vec2,
    x: i64,
    k: i64,
    n: u32,
    b: i64,
)
    requires
        i < old(particles).len(),
        j < old(particles).len(),
        i != j,
    ensures
        final(particles)@ == restoring_applied_pair(old(particles)@, i as int, j as int, grad_i,
            grad_j, x as int, k as int, n as nat, b as int),
{
    let xdot = fx_add(grad_i.dot(&particles[i].vel), grad_j.dot(&particles[j].vel));
    let m = restoring_mag(x, xdot, k, n, b);
    add_contribution(particles, i, grad_i.scale(m));
    add_contribution(particles, j, grad_j.scale(m));
}

/// The forces of a force table, in order.
pub open spec fn force_vals(fs: Seq<(u32, Force)>) -> Seq<Force> {
    fs.map_values(|t: (u32, Force)| t.1)
}

/// Does the force reference the particle id?
pub open spec fn force_references(f: Force, id: u32) -> bool {
    match f {
        Force::RawForce { target, .. } => target == id,
        Force::WorldGravity { target, .. } => target == id,
        Force::PairGravity { a, b, .. } => a == id || b == id,
        Force::Drag { target, .. } => target == id,
        Force::ConstraintForce { constraint, .. } => crate::constraint::shape_references(
            constraint,
            id,
        ),
    }
}

/// Does the force reference the particle id?
pub fn references(f: &Force, id: u32) -> (r: bool)
    ensures
        r == force_references(*f, id),
{
    match *f {
        Force::RawForce { target, .. } => target == id,
        Force::WorldGravity { target, .. } => target == id,
        Force::PairGravity { a, b, .. } => a == id || b == id,
        Force::Drag { target, .. } => target == id,
        Force::ConstraintForce { constraint, .. } => crate::constraint::references(&constraint,
            id),
    }
}

/// Pair gravity conserves momentum at the accumulators: whenever both
/// participants exist and the separation is not degenerate, the
/// contribution received by `b` is the exact negation of the one received
/// by `a`, so the two sum to zero componentwise. (The one excluded raw
/// value is a contribution component of `i64::MIN`, whose negation
/// saturates.)
pub proof fn lemma_pair_gravity_equal_opposite(ps: Seq<Particle>, a: u32, b: u32, g: i64)
    requires
        ({
            let i = first_with_id(ps, a);
            let j = first_with_id(ps, b);
            &&& i >= 0
            &&& j >= 0
            &&& i != j
            &&& ({
                let delta = v_sub(ps[j].pos, ps[i].pos);
                let d2 = q_add(q_mul(delta.x as int, delta.x as int),
                    q_mul(delta.y as int, delta.y as int));
                let pull = pair_gravity_pull(ps[i], ps[j], g as int);
                &&& v_mag(delta) != 0
                &&& d2 != 0
                &&& pull.x != i64::MIN
                &&& pull.y != i64::MIN
            })
        }),
    ensures
        ({
            let i = first_with_id(ps, a);
            let j = first_with_id(ps, b);
            let pull = pair_gravity_pull(ps[i], ps[j], g as int);
            let r = apply_force_spec(Force::PairGravity { a, b, gravitational_constant: g }, ps);
            &&& r[i].force_accum == v_add(ps[i].force_accum, pull)
            &&& r[j].force_accum == v_add(ps[j].force_accum, v_neg(pull))
            &&& pull.x + v_neg(pull).x == 0
            &&& pull.y + v_neg(pull).y == 0
        }),
{
    let i = first_with_id(ps, a);
    let j = first_with_id(ps, b);
    let pull = pair_gravity_pull(ps[i], ps[j], g as int);
    let r = apply_force_spec(Force::PairGravity { a, b, gravitational_constant: g }, ps);
    assert(r == accum_added(accum_added(ps, i, pull), j, v_neg(pull)));
    assert(accum_added(ps, i, pull)[j] == ps[j]);
    assert(r[i] == accum_added(ps, i, pull)[i]);
}

} // verus!
