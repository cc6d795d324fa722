//! Geometric constraints solved by iterative position projection.
//!
//! A constraint relates one or two particles (referenced by id) to fixed
//! geometry. Each projection pass evaluates the constraint at the current
//! positions and, when it is violated, displaces the participant position(s)
//! toward satisfaction, scaled by `compliance` (`SCALE` corrects fully in
//! one pass; smaller values spread the correction over several passes).
//!
//! Degenerate geometry (a zero-length separation, a zero-length boundary
//! line) admits no correction direction; such a pass leaves the position
//! unchanged rather than manufacturing one.

use vstd::prelude::*;
use crate::fixed::{fx_add, fx_div, fx_mul, fx_neg, fx_sub, q_add, q_div, q_mul, q_neg, q_sub, tdiv, SCALE};
use crate::particle::{find_particle, first_with_id, Particle};
use crate::vec2::{v_add, v_cross, v_divide, v_mag, v_scale, v_sub, Vec2};

verus! {

/// The sense of a constraint: `Equality` is satisfied iff its scalar
/// function is 0, `Inequality` iff the function is nonnegative.
#[derive(Clone, Copy, PartialEq, Eq, Structural, Debug)]
pub enum ConstraintKind {
    /// satisfied iff function == 0 (a holonomic constraint)
    Equality,
    /// satisfied iff function >= 0
    Inequality,
}

/// The geometry of a constraint over one or two particle ids.
#[derive(Clone, Copy, PartialEq, Eq, Structural, Debug)]
pub enum ConstraintShape {
    /// Pin a particle to a point.
    PinToPoint { particle: u32, point: Vec2 },
    /// Keep a particle at exactly `dist` from a fixed point.
    FixedDistance { particle: u32, point: Vec2, dist: i64 },
    /// Keep a particle at least `dist` from a fixed point.
    MinDistance { particle: u32, point: Vec2, dist: i64 },
    /// Keep a particle at most `dist` from a fixed point.
    MaxDistance { particle: u32, point: Vec2, dist: i64 },
    /// Keep two particles at exactly `dist` from each other.
    LinkFixedDistance { particle1: u32, particle2: u32, dist: i64 },
    /// Keep two particles at least `dist` apart.
    LinkMinDistance { particle1: u32, particle2: u32, dist: i64 },
    /// Keep two particles at most `dist` apart.
    LinkMaxDistance { particle1: u32, particle2: u32, dist: i64 },
    /// Keep a particle on the left side of the line from `start` to `end`.
    BoundaryLine { particle: u32, start: Vec2, end: Vec2 },
    /// Keep a particle (body of its radius) inside an axis-aligned rectangle.
    StayInRect { particle: u32, top_left: Vec2, bottom_right: Vec2 },
}

/// A constraint: geometry plus the fraction of the violation corrected per
/// projection pass, and a marker reserved for broken constraints (never set
/// by projection itself).
#[derive(Clone, Copy, PartialEq, Eq, Structural, Debug)]
pub struct Constraint {
    /// the geometric relation and its participants
    pub shape: ConstraintShape,
    /// fraction of the violation corrected per pass, in (0, SCALE]
    pub compliance: i64,
    /// reserved marker; no projection pass ever sets it
    pub broken: bool,
}

/// The sense in which each geometry is satisfied.
pub open spec fn kind_spec(s: ConstraintShape) -> ConstraintKind {
    match s {
        ConstraintShape::PinToPoint { .. } => ConstraintKind::Equality,
        ConstraintShape::FixedDistance { .. } => ConstraintKind::Equality,
        ConstraintShape::LinkFixedDistance { .. } => ConstraintKind::Equality,
        ConstraintShape::MinDistance { .. } => ConstraintKind::Inequality,
        ConstraintShape::MaxDistance { .. } => ConstraintKind::Inequality,
        ConstraintShape::LinkMinDistance { .. } => ConstraintKind::Inequality,
        ConstraintShape::LinkMaxDistance { .. } => ConstraintKind::Inequality,
        ConstraintShape::BoundaryLine { .. } => ConstraintKind::Inequality,
        ConstraintShape::StayInRect { .. } => ConstraintKind::Inequality,
    }
}

/// A position pulled straight toward `point` by the compliance fraction.
pub open spec fn pin_corrected(pos: Vec2, point: Vec2, compliance: int) -> Vec2 {
    v_add(pos, v_scale(v_sub(point, pos), compliance))
}

/// A position moved along its separation direction from `point` so that the
/// distance error `|pos - point| - dist` shrinks by the compliance fraction.
/// A zero separation has no direction and corrects nothing.
pub open spec fn distance_corrected(pos: Vec2, point: Vec2, dist: int, compliance: int) -> Vec2 {
    let delta = v_sub(pos, point);
    let d = v_mag(delta);
    if d == 0 {
        pos
    } else {
        let unit = v_divide(delta, d);
        let corr = q_mul(q_sub(d, dist), compliance);
        v_sub(pos, v_scale(unit, corr))
    }
}

/// Two linked positions moved toward/away from each other along their
/// separation so that their distance error shrinks by the compliance
/// fraction, split half and half (the second particle takes the remainder
/// of the truncated halving, so the two movements sum to the whole
/// correction exactly).
pub open spec fn link_corrected(pa: Vec2, pb: Vec2, dist: int, compliance: int) -> (Vec2, Vec2) {
    let delta = v_sub(pa, pb);
    let d = v_mag(delta);
    if d == 0 {
        (pa, pb)
    } else {
        let unit = v_divide(delta, d);
        let corr = q_mul(q_sub(d, dist), compliance);
        let half = tdiv(corr, 2);
        let rest = corr - half;
        (v_sub(pa, v_scale(unit, half)), v_add(pb, v_scale(unit, rest)))
    }
}

/// The signed distance of `pos` from the line through `start` and `end`,
/// positive on the left of the direction of travel. Meaningful only for a
/// line of nonzero length.
pub open spec fn line_side(pos: Vec2, start: Vec2, end: Vec2) -> int {
    let e = v_sub(end, start);
    q_div(v_cross(e, v_sub(pos, start)), v_mag(e))
}

/// A position pushed back onto the left side of the line by the compliance
/// fraction of its signed distance, along the unit normal.
pub open spec fn boundary_corrected(pos: Vec2, start: Vec2, end: Vec2, compliance: int) -> Vec2 {
    let e = v_sub(end, start);
    let len = v_mag(e);
    let s = line_side(pos, start, end);
    let n = v_divide(Vec2 { x: q_neg(e.y as int) as i64, y: e.x }, len);
    v_add(pos, v_scale(n, q_mul(q_neg(s), compliance)))
}

/// One coordinate moved toward the band `[lo + r, hi - r]` by the
/// compliance fraction when the body of radius `r` around it pokes out.
pub open spec fn rect_corrected_coord(c: int, r: int, lo: int, hi: int, compliance: int) -> int {
    if q_sub(c, r) < lo {
        q_add(c, q_mul(q_sub(q_add(lo, r), c), compliance))
    } else if q_add(c, r) > hi {
        q_add(c, q_mul(q_sub(q_sub(hi, r), c), compliance))
    } else {
        c
    }
}

/// A position moved (independently per axis) toward the rectangle shrunk by
/// the particle radius.
pub open spec fn rect_corrected(pos: Vec2, radius: int, tl: Vec2, br: Vec2, compliance: int) -> Vec2 {
    Vec2 {
        x: rect_corrected_coord(pos.x as int, radius, tl.x as int, br.x as int, compliance) as i64,
        y: rect_corrected_coord(pos.y as int, radius, tl.y as int, br.y as int, compliance) as i64,
    }
}

/// The exact effect of one projection pass of constraint `c` on the
/// particle sequence: participants are resolved by id (a missing id
/// corrects nothing), the violation is determined in the sense of
/// `kind_spec`, and violated constraints displace positions as the
/// correction functions above say.
pub open spec fn project_spec(ps: Seq<Particle>, c: Constraint) -> Seq<Particle> {
    match c.shape {
        ConstraintShape::PinToPoint { particle, point } => {
            let i = first_with_id(ps, particle);
            if i < 0 {
                ps
            } else {
                let np = pin_corrected(ps[i].pos, point, c.compliance as int);
                ps.update(i, Particle { pos: np, ..ps[i] })
            }
        },
        ConstraintShape::FixedDistance { particle, point, dist } => {
            let i = first_with_id(ps, particle);
            if i < 0 {
                ps
            } else {
                let np = distance_corrected(ps[i].pos, point, dist as int, c.compliance as int);
                ps.update(i, Particle { pos: np, ..ps[i] })
            }
        },
        ConstraintShape::MinDistance { particle, point, dist } => {
            let i = first_with_id(ps, particle);
            if i < 0 || v_mag(v_sub(ps[i].pos, point)) >= dist {
                ps
            } else {
                let np = distance_corrected(ps[i].pos, point, dist as int, c.compliance as int);
                ps.update(i, Particle { pos: np, ..ps[i] })
            }
        },
        ConstraintShape::MaxDistance { particle, point, dist } => {
            let i = first_with_id(ps, particle);
            if i < 0 || v_mag(v_sub(ps[i].pos, point)) <= dist {
                ps
            } else {
                let np = distance_corrected(ps[i].pos, point, dist as int, c.compliance as int);
                ps.update(i, Particle { pos: np, ..ps[i] })
            }
        },
        ConstraintShape::LinkFixedDistance { particle1, particle2, dist } => {
            let i = first_with_id(ps, particle1);
            let j = first_with_id(ps, particle2);
            if i < 0 || j < 0 || i == j {
                ps
            } else {
                let pair = link_corrected(ps[i].pos, ps[j].pos, dist as int, c.compliance as int);
                ps.update(i, Particle { pos: pair.0, ..ps[i] }).update(
                    j,
                    Particle { pos: pair.1, ..ps[j] },
                )
            }
        },
        ConstraintShape::LinkMinDistance { particle1, particle2, dist } => {
            let i = first_with_id(ps, particle1);
            let j = first_with_id(ps, particle2);
            if i < 0 || j < 0 || i == j || v_mag(v_sub(ps[i].pos, ps[j].pos)) >= dist {
                ps
            } else {
                let pair = link_corrected(ps[i].pos, ps[j].pos, dist as int, c.compliance as int);
                ps.update(i, Particle { pos: pair.0, ..ps[i] }).update(
                    j,
                    Particle { pos: pair.1, ..ps[j] },
                )
            }
        },
        ConstraintShape::LinkMaxDistance { particle1, particle2, dist } => {
            let i = first_with_id(ps, particle1);
            let j = first_with_id(ps, particle2);
            if i < 0 || j < 0 || i == j || v_mag(v_sub(ps[i].pos, ps[j].pos)) <= dist {
                ps
            } else {
                let pair = link_corrected(ps[i].pos, ps[j].pos, dist as int, c.compliance as int);
                ps.update(i, Particle { pos: pair.0, ..ps[i] }).update(
                    j,
                    Particle { pos: pair.1, ..ps[j] },
                )
            }
        },
        ConstraintShape::BoundaryLine { particle, start, end } => {
            let i = first_with_id(ps, particle);
            if i < 0 || v_mag(v_sub(end, start)) == 0 || line_side(ps[i].pos, start, end) >= 0 {
                ps
            } else {
                let np = boundary_corrected(ps[i].pos, start, end, c.compliance as int);
                ps.update(i, Particle { pos: np, ..ps[i] })
            }
        },
        ConstraintShape::StayInRect { particle, top_left, bottom_right } => {
            let i = first_with_id(ps, particle);
            if i < 0 {
                ps
            } else {
                let np = rect_corrected(
                    ps[i].pos,
                    ps[i].radius as int,
                    top_left,
                    bottom_right,
                    c.compliance as int,
                );
                ps.update(i, Particle { pos: np, ..ps[i] })
            }
        },
    }
}

impl Constraint {
    /// A constraint over the given geometry that corrects fully in one pass
    /// and is not broken.
    pub fn new(shape: ConstraintShape) -> (c: Constraint)
        ensures
            c == (Constraint { shape, compliance: SCALE, broken: false }),
    {
        Constraint { shape, compliance: SCALE, broken: false }
    }

    /// A builder method to give the constraint a specific compliance.
    pub fn compliance(self, compliance: i64) -> (c: Constraint)
        ensures
            c == (Constraint { compliance, ..self }),
    {
        Constraint { compliance, ..self }
    }

    /// The sense in which this constraint is satisfied.
    pub fn kind(&self) -> (k: ConstraintKind)
        ensures
            k == kind_spec(self.shape),
    {
        match self.shape {
            ConstraintShape::PinToPoint { .. } => ConstraintKind::Equality,
            ConstraintShape::FixedDistance { .. } => ConstraintKind::Equality,
            ConstraintShape::LinkFixedDistance { .. } => ConstraintKind::Equality,
            _ => ConstraintKind::Inequality,
        }
    }

    /// One projection pass: resolve the participants by id, determine the
    /// violation, and displace the position(s) toward satisfaction, scaled
    /// by the compliance. The time step does not enter a positional
    /// projection; it is part of the interface for projections that may
    /// need it.
    pub fn project(&self, particles: &mut Vec<Particle>, _dt: i64)
        ensures
            final(particles)@ == project_spec(old(particles)@, *self),
    {
        match self.shape {
            ConstraintShape::PinToPoint { particle, point } => {
                if let Some(i) = find_particle(particles, particle) {
                    let p = particles[i];
                    let np = p.pos.add(point.sub(p.pos).scale(self.compliance));
                    particles[i].pos = np;
                }
            },
            ConstraintShape::FixedDistance { particle, point, dist } => {
                if let Some(i) = find_particle(particles, particle) {
                    correct_toward_distance(particles, i, point, dist, self.compliance);
                }
            },
            ConstraintShape::MinDistance { particle, point, dist } => {
                if let Some(i) = find_particle(particles, particle) {
                    let d = particles[i].pos.sub(point).mag();
                    if d < dist {
                        correct_toward_distance(particles, i, point, dist, self.compliance);
                    }
                }
            },
            ConstraintShape::MaxDistance { particle, point, dist } => {
                if let Some(i) = find_particle(particles, particle) {
                    let d = particles[i].pos.sub(point).mag();
                    if d > dist {
                        correct_toward_distance(particles, i, point, dist, self.compliance);
                    }
                }
            },
            ConstraintShape::LinkFixedDistance { particle1, particle2, dist } => {
                if let Some(i) = find_particle(particles, particle1) {
                    if let Some(j) = find_particle(particles, particle2) {
                        if i != j {
                            correct_link(particles, i, j, dist, self.compliance);
                        }
                    }
                }
            },
            ConstraintShape::LinkMinDistance { particle1, particle2, dist } => {
                if let Some(i) = find_particle(particles, particle1) {
                    if let Some(j) = find_particle(particles, particle2) {
                        if i != j {
                            let d = particles[i].pos.sub(particles[j].pos).mag();
                            if d < dist {
                                correct_link(particles, i, j, dist, self.compliance);
                            }
                        }
                    }
                }
            },
            ConstraintShape::LinkMaxDistance { particle1, particle2, dist } => {
                if let Some(i) = find_particle(particles, particle1) {
                    if let Some(j) = find_particle(particles, particle2) {
                        if i != j {
                            let d = particles[i].pos.sub(particles[j].pos).mag();
                            if d > dist {
                                correct_link(particles, i, j, dist, self.compliance);
                            }
                        }
                    }
                }
            },
            ConstraintShape::BoundaryLine { particle, start, end } => {
                if let Some(i) = find_particle(particles, particle) {
                    let e = end.sub(start);
                    let len = e.mag();
                    if len != 0 {
                        let p = particles[i];
                        let s = fx_div(e.cross(&p.pos.sub(start)), len);
                        if s < 0 {
                            let n = Vec2 { x: fx_neg(e.y), y: e.x }.divide(len);
                            let np = p.pos.add(n.scale(fx_mul(fx_neg(s), self.compliance)));
                            particles[i].pos = np;
                        }
                    }
                }
            },
            ConstraintShape::StayInRect { particle, top_left, bottom_right } => {
                if let Some(i) = find_particle(particles, particle) {
                    let p = particles[i];
                    let r = p.radius;
                    let nx = correct_rect_coord(p.pos.x, r, top_left.x, bottom_right.x,
                        self.compliance);
                    let ny = correct_rect_coord(p.pos.y, r, top_left.y, bottom_right.y,
                        self.compliance);
                    particles[i].pos = Vec2 { x: nx, y: ny };
                }
            },
        }
    }
}

/// Displace particle `i` along its separation from `point` by the
/// compliance fraction of the distance error.
fn correct_toward_distance(
    particles: &mut Vec<Particle>,
    i: usize,
    point: Vec2,
    dist: i64,
    compliance: i64,
) -> (moved: bool)
    requires
        i < old(particles).len(),
    ensures
        final(particles)@ == old(particles)@.update(
            i as int,
            Particle {
                pos: distance_corrected(old(particles)@[i as int].pos, point, dist as int,
                    compliance as int),
                ..old(particles)@[i as int]
            },
        ),
{
    let p = particles[i];
    let delta = p.pos.sub(point);
    let d = delta.mag();
    if d != 0 {
        let unit = delta.divide(d);
        let corr = fx_mul(fx_sub(d, dist), compliance);
        let np = p.pos.sub(unit.scale(corr));
        particles[i].pos = np;
        true
    } else {
        proof {
            assert(particles@ =~= old(particles)@.update(
                i as int,
                Particle { pos: p.pos, ..old(particles)@[i as int] },
            ));
        }
        false
    }
}

/// Displace the linked particles `i` and `j` toward/away from each other by
/// the compliance fraction of their distance error, split half and half.
fn correct_link(
    particles: &mut Vec<Particle>,
    i: usize,
    j: usize,
    dist: i64,
    compliance: i64,
) -> (moved: bool)
    requires
        i < old(particles).len(),
        j < old(particles).len(),
        i != j,
    ensures
        ({
            let pair = link_corrected(old(particles)@[i as int].pos, old(particles)@[j as int].pos,
                dist as int, compliance as int);
            final(particles)@ == old(particles)@.update(
                i as int,
                Particle { pos: pair.0, ..old(particles)@[i as int] },
            ).update(j as int, Particle { pos: pair.1, ..old(particles)@[j as int] })
        }),
{
    let pa = particles[i];
    let pb = particles[j];
    let delta = pa.pos.sub(pb.pos);
    let d = delta.mag();
    if d != 0 {
        let unit = delta.divide(d);
        let corr = fx_mul(fx_sub(d, dist), compliance);
        let half = corr / 2;
        let rest = corr - half;
        let na = pa.pos.sub(unit.scale(half));
        let nb = pb.pos.add(unit.scale(rest));
        particles[i].pos = na;
        particles[j].pos = nb;
        true
    } else {
        proof {
            assert(particles@ =~= old(particles)@.update(
                i as int,
                Particle { pos: pa.pos, ..old(particles)@[i as int] },
            ).update(j as int, Particle { pos: pb.pos, ..old(particles)@[j as int] }));
        }
        false
    }
}

/// Move one coordinate toward the band `[lo + r, hi - r]` by the compliance
/// fraction when the body of radius `r` pokes out of it.
fn correct_rect_coord(c: i64, r: i64, lo: i64, hi: i64, compliance: i64) -> (nc: i64)
    ensures
        nc as int == rect_corrected_coord(c as int, r as int, lo as int, hi as int,
            compliance as int),
{
    if fx_sub(c, r) < lo {
        fx_add(c, fx_mul(fx_sub(fx_add(lo, r), c), compliance))
    } else if fx_add(c, r) > hi {
        fx_add(c, fx_mul(fx_sub(fx_sub(hi, r), c), compliance))
    } else {
        c
    }
}

/// Does the geometry reference the particle id?
pub open spec fn shape_references(s: ConstraintShape, id: u32) -> bool {
    match s {
        ConstraintShape::PinToPoint { particle, .. } => particle == id,
        ConstraintShape::FixedDistance { particle, .. } => particle == id,
        ConstraintShape::MinDistance { particle, .. } => particle == id,
        ConstraintShape::MaxDistance { particle, .. } => particle == id,
        ConstraintShape::LinkFixedDistance { particle1, particle2, .. } => particle1 == id
            || particle2 == id,
        ConstraintShape::LinkMinDistance { particle1, particle2, .. } => particle1 == id
            || particle2 == id,
        ConstraintShape::LinkMaxDistance { particle1, particle2, .. } => particle1 == id
            || particle2 == id,
        ConstraintShape::BoundaryLine { particle, .. } => particle == id,
        ConstraintShape::StayInRect { particle, .. } => particle == id,
    }
}

/// Does the geometry reference the particle id?
pub fn references(s: &ConstraintShape, id: u32) -> (r: bool)
    ensures
        r == shape_references(*s, id),
{
    match *s {
        ConstraintShape::PinToPoint { particle, .. } => particle == id,
        ConstraintShape::FixedDistance { particle, .. } => particle == id,
        ConstraintShape::MinDistance { particle, .. } => particle == id,
        ConstraintShape::MaxDistance { particle, .. } => particle == id,
        ConstraintShape::LinkFixedDistance { particle1, particle2, .. } => particle1 == id
            || particle2 == id,
        ConstraintShape::LinkMinDistance { particle1, particle2, .. } => particle1 == id
            || particle2 == id,
        ConstraintShape::LinkMaxDistance { particle1, particle2, .. } => particle1 == id
            || particle2 == id,
        ConstraintShape::BoundaryLine { particle, .. } => particle == id,
        ConstraintShape::StayInRect { particle, .. } => particle == id,
    }
}

/// Multiplying by plus or minus one whole unit (`SCALE` raw units) is exact
/// for any in-range value.
proof fn lemma_q_mul_unit(v: int)
    requires
        -(i64::MAX as int) <= v <= i64::MAX as int,
    ensures
        q_mul(SCALE as int, v) == v,
        q_mul(-(SCALE as int), v) == -v,
{
    let s = SCALE as int;
    vstd::arithmetic::mul::lemma_mul_unary_negation(s, v);
    vstd::arithmetic::div_mod::lemma_div_multiples_vanish(v, s);
    vstd::arithmetic::div_mod::lemma_div_multiples_vanish(-v, s);
    assert(s * (-v) == -(s * v));
    if s * v >= 0 {
        assert(tdiv(s * v, s) == v);
        if v != 0 {
            assert(tdiv(s * (-v), s) == -v);
        }
    } else {
        assert(tdiv(s * v, s) == -((-(s * v)) / s));
        assert(-(s * v) == s * (-v));
        assert(tdiv(s * v, s) == v);
        assert(tdiv(s * (-v), s) == -v);
    }
    assert(tdiv((-s) * v, s) == tdiv(s * (-v), s)) by {
        vstd::arithmetic::mul::lemma_mul_unary_negation(s, v);
    }
}

/// With full compliance and one projection pass, a fixed-distance link on
/// two particles that lie on one horizontal line restores the link distance
/// exactly: the correction splits the whole distance error between the two
/// positions. (In general position the result differs from `dist` only by
/// the rounding of the square root and of the unit direction; a particle
/// pair at identical positions has no separation direction and is left
/// unmoved.)
pub proof fn lemma_link_projection_exact(pa: Vec2, pb: Vec2, dist: i64)
    requires
        pa.y == pb.y,
        pa.x != pb.x,
        0 <= dist <= 1000000000000,
        -1000000000000 <= pa.x <= 1000000000000,
        -1000000000000 <= pb.x <= 1000000000000,
    ensures
        ({
            let pair = link_corrected(pa, pb, dist as int, SCALE as int);
            v_mag(v_sub(pair.0, pair.1)) == dist
        }),
{
    let s = SCALE as int;
    let delta = v_sub(pa, pb);
    let dx = pa.x - pb.x;
    assert(delta.x as int == dx && delta.y as int == 0);
    let adx = if dx >= 0 { dx } else { -dx };
    vstd::arithmetic::mul::lemma_mul_by_zero_is_zero(0int);
    assert(dx * dx == adx * adx) by (nonlinear_arith)
        requires
            adx == (if dx >= 0 { dx } else { -dx }),
    ;
    assert(crate::vec2::mag_sq(delta) == adx * adx);
    crate::fixed::lemma_sqrt_of_square(adx);
    assert(v_mag(delta) == adx);
    let d = v_mag(delta);
    assert(d == adx && 0 < d <= 2000000000000);

    // the unit separation direction is exactly plus or minus one unit
    let unit = v_divide(delta, d);
    vstd::arithmetic::div_mod::lemma_div_basics(adx);
    vstd::arithmetic::mul::lemma_mul_by_zero_is_zero(s);
    assert(unit.y as int == 0);
    vstd::arithmetic::div_mod::lemma_div_multiples_vanish(s, adx);
    vstd::arithmetic::mul::lemma_mul_is_commutative(dx, s);
    if dx >= 0 {
        assert(dx * s == adx * s);
        vstd::arithmetic::mul::lemma_mul_nonnegative(adx, s);
        vstd::arithmetic::mul::lemma_mul_is_commutative(adx, s);
        assert(tdiv(dx * s, adx) == (adx * s) / adx);
        assert((adx * s) / adx == s);
        assert(unit.x as int == s);
    } else {
        vstd::arithmetic::mul::lemma_mul_unary_negation(dx, s);
        assert(-(dx * s) == adx * s);
        vstd::arithmetic::mul::lemma_mul_nonnegative(adx, s);
        vstd::arithmetic::mul::lemma_mul_is_commutative(adx, s);
        assert(dx * s == -(adx * s));
        assert(dx * s <= 0 && dx * s != 0) by (nonlinear_arith)
            requires
                dx < 0,
                s > 0,
        ;
        assert(tdiv(dx * s, adx) == -((adx * s) / adx));
        assert(unit.x as int == -s);
    }

    // the correction is exactly the distance error
    let c0 = d - dist;
    assert(q_sub(d, dist as int) == c0);
    lemma_q_mul_unit(c0);
    vstd::arithmetic::mul::lemma_mul_is_commutative(c0, s);
    assert(q_mul(c0, s) == q_mul(s, c0)) by {
        assert(c0 * s == s * c0);
    }
    let corr = q_mul(q_sub(d, dist as int), s);
    assert(corr == c0);
    let half = tdiv(corr, 2);
    let rest = corr - half;
    assert(-3000000000000 <= half <= 3000000000000);
    assert(half + rest == c0);

    // the two displacements are exactly the halves, along the line
    lemma_q_mul_unit(half);
    lemma_q_mul_unit(rest);
    vstd::arithmetic::mul::lemma_mul_by_zero_is_zero(half);
    vstd::arithmetic::mul::lemma_mul_by_zero_is_zero(rest);
    vstd::arithmetic::div_mod::lemma_div_basics(s);
    let mv_a = crate::vec2::v_scale(unit, half);
    let mv_b = crate::vec2::v_scale(unit, rest);
    let pair = link_corrected(pa, pb, dist as int, s);
    assert(pair.0 == v_sub(pa, mv_a) && pair.1 == v_add(pb, mv_b));
    assert(mv_a.y as int == 0 && mv_b.y as int == 0);

    let nd = v_sub(pair.0, pair.1);
    if dx >= 0 {
        assert(mv_a.x as int == half && mv_b.x as int == rest);
        assert(pair.0.x as int == pa.x - half);
        assert(pair.1.x as int == pb.x + rest);
        assert(nd.x as int == dx - c0);
        assert(nd.x as int == dist);
    } else {
        assert(mv_a.x as int == -half && mv_b.x as int == -rest);
        assert(pair.0.x as int == pa.x + half);
        assert(pair.1.x as int == pb.x - rest);
        assert(nd.x as int == dx + c0);
        assert(nd.x as int == -dist);
    }
    assert(nd.y as int == 0);

    // the restored separation has magnitude exactly `dist`
    let ndx = nd.x as int;
    let andx = if ndx >= 0 { ndx } else { -ndx };
    assert(andx == dist);
    assert(ndx * ndx == andx * andx) by (nonlinear_arith)
        requires
            andx == (if ndx >= 0 { ndx } else { -ndx }),
    ;
    assert(crate::vec2::mag_sq(nd) == andx * andx);
    crate::fixed::lemma_sqrt_of_square(andx);
    assert(v_mag(nd) == dist);
}

} // verus!
