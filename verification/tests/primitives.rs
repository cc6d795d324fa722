use rusty_particle_physics_2d::constraint::{Constraint, ConstraintShape};
use rusty_particle_physics_2d::fixed::{fx_add, fx_div, fx_mul, fx_neg, fx_sub, isqrt_u128};
use rusty_particle_physics_2d::force::Force;
use rusty_particle_physics_2d::particle::Particle;
use rusty_particle_physics_2d::rendering::rgb_to_softbuffer;
use rusty_particle_physics_2d::vec2::Vec2;
use rusty_particle_physics_2d::SCALE;

const S: i64 = SCALE;

#[test]
fn fixed_point_arithmetic() {
    assert_eq!(fx_add(3 * S, 4 * S), 7 * S);
    assert_eq!(fx_sub(3 * S, 4 * S), -S);
    assert_eq!(fx_mul(3 * S, 4 * S), 12 * S);
    assert_eq!(fx_mul(-3 * S, 4 * S), -12 * S);
    assert_eq!(fx_div(3 * S, 4 * S), 3 * S / 4);
    assert_eq!(fx_div(-3 * S, 2 * S), -3 * S / 2);
    assert_eq!(fx_neg(5 * S), -5 * S);
    // rounding is toward zero
    assert_eq!(fx_div(1, 3 * S), 0);
    assert_eq!(fx_div(-1, 3 * S), 0);
    // saturation at the i64 range
    assert_eq!(fx_add(i64::MAX, 1), i64::MAX);
    assert_eq!(fx_sub(i64::MIN, 1), i64::MIN);
    assert_eq!(fx_mul(i64::MAX, 2 * S), i64::MAX);
    assert_eq!(fx_neg(i64::MIN), i64::MAX);
}

#[test]
fn integer_square_root() {
    assert_eq!(isqrt_u128(0), 0);
    assert_eq!(isqrt_u128(1), 1);
    assert_eq!(isqrt_u128(3), 1);
    assert_eq!(isqrt_u128(4), 2);
    assert_eq!(isqrt_u128(99), 9);
    assert_eq!(isqrt_u128(100), 10);
    assert_eq!(isqrt_u128(u128::MAX), 0xffff_ffff_ffff_ffff);
}

#[test]
fn vector_operations() {
    let a = Vec2::new(S, 2 * S);
    let b = Vec2::new(3 * S, 4 * S);
    let sum = a.add(b);
    assert_eq!((sum.x, sum.y), (4 * S, 6 * S));
    let diff = a.sub(b);
    assert_eq!((diff.x, diff.y), (-2 * S, -2 * S));
    assert_eq!(a.dot(&b), 11 * S);
    assert_eq!(a.cross(&b), -2 * S);
    let scaled = a.scale(S / 2);
    assert_eq!((scaled.x, scaled.y), (S / 2, S));
    let halved = a.divide(2 * S);
    assert_eq!((halved.x, halved.y), (S / 2, S));
    let z = Vec2::zero();
    assert_eq!((z.x, z.y), (0, 0));
}

#[test]
fn vector_magnitude() {
    assert_eq!(Vec2::new(3 * S, 4 * S).mag(), 5 * S);
    assert_eq!(Vec2::new(-3 * S, 4 * S).mag(), 5 * S);
    assert_eq!(Vec2::new(0, 0).mag(), 0);
    assert_eq!(Vec2::new(0, -7 * S).mag(), 7 * S);
}

#[test]
fn affine_transformation_maps_to_view_space() {
    // scale by 2 around the origin, then translate by (1, 1)
    let m = ((2 * S, 0), (0, 2 * S));
    let t = Vec2::new(S, S);
    let v = Vec2::new(3 * S, -2 * S).affine_transformation(m, t);
    assert_eq!((v.x, v.y), (7 * S, -3 * S));
}

#[test]
fn particle_builder_and_defaults() {
    let p = Particle::new();
    assert_eq!(p.mass, 10 * S);
    assert_eq!(p.radius, 10 * S);
    assert_eq!(p.color, (220, 20, 60, 255));
    let q = Particle::new()
        .mass(2 * S)
        .radius(S)
        .color((1, 2, 3, 4))
        .group(7)
        .id(9)
        .pos(S, 2 * S)
        .vel(-S, 0);
    assert_eq!(q.mass, 2 * S);
    assert_eq!(q.radius, S);
    assert_eq!(q.color, (1, 2, 3, 4));
    assert_eq!(q.group, 7);
    assert_eq!(q.id, 9);
    assert_eq!((q.pos.x, q.pos.y), (S, 2 * S));
    assert_eq!((q.vel.x, q.vel.y), (-S, 0));
}

#[test]
fn particle_update_is_symplectic() {
    // the force moves the velocity first, and the new velocity moves the
    // position (explicit Euler would leave the position unchanged here)
    let mut p = Particle::new().pos(0, 0).vel(0, 0);
    p.force_accum = Vec2::new(0, -400 * S);
    p.update(S / 100);
    assert_eq!(p.vel.y, -S * 4 / 10);
    assert_eq!(p.pos.y, -S * 4 / 1000);
}

#[test]
fn pair_gravity_contributions_are_equal_and_opposite() {
    // masses 10 at distance 2: |F| = G*m1*m2/d^2 = 1*10*10/4 = 25
    let mut ps = vec![
        Particle::new().id(0).pos(0, 0),
        Particle::new().id(1).pos(2 * S, 0),
    ];
    let f = Force::PairGravity { a: 0, b: 1, gravitational_constant: S };
    f.apply(&mut ps);
    assert_eq!((ps[0].force_accum.x, ps[0].force_accum.y), (25 * S, 0));
    assert_eq!((ps[1].force_accum.x, ps[1].force_accum.y), (-25 * S, 0));
    assert_eq!(ps[0].force_accum.x + ps[1].force_accum.x, 0);
}

#[test]
fn drag_opposes_velocity_linearly() {
    let mut ps = vec![Particle::new().id(0).vel(3 * S, -2 * S)];
    let f = Force::Drag { target: 0, coefficient: S / 2 };
    f.apply(&mut ps);
    assert_eq!((ps[0].force_accum.x, ps[0].force_accum.y), (-3 * S / 2, S));
}

#[test]
fn missing_target_contributes_nothing() {
    let mut ps = vec![Particle::new().id(0)];
    let f = Force::WorldGravity { target: 42, g: 40 * S };
    f.apply(&mut ps);
    assert_eq!((ps[0].force_accum.x, ps[0].force_accum.y), (0, 0));
}

#[test]
fn spring_constraint_force_restores() {
    // spring: k=1, n=1, b=0 on a link stretched to 3.0 with rest 1.0:
    // x = 2, magnitude = -k*x = -2 along the unit separation
    let mut ps = vec![
        Particle::new().id(0).pos(3 * S, 0),
        Particle::new().id(1).pos(0, 0),
    ];
    let f = Force::ConstraintForce {
        constraint: ConstraintShape::LinkFixedDistance { particle1: 0, particle2: 1, dist: S },
        k: S,
        n: 1,
        b: 0,
    };
    f.apply(&mut ps);
    assert_eq!((ps[0].force_accum.x, ps[0].force_accum.y), (-2 * S, 0));
    assert_eq!((ps[1].force_accum.x, ps[1].force_accum.y), (2 * S, 0));
}

#[test]
fn min_distance_only_corrects_when_violated() {
    let mut ps = vec![Particle::new().id(0).pos(5 * S, 0)];
    let satisfied = Constraint::new(ConstraintShape::MinDistance {
        particle: 0,
        point: Vec2::new(0, 0),
        dist: 2 * S,
    });
    satisfied.project(&mut ps, S);
    assert_eq!(ps[0].pos.x, 5 * S);
    let violated = Constraint::new(ConstraintShape::MaxDistance {
        particle: 0,
        point: Vec2::new(0, 0),
        dist: 3 * S,
    });
    violated.project(&mut ps, S);
    assert_eq!(ps[0].pos.x, 3 * S);
}

#[test]
fn boundary_line_pushes_back_to_the_left_side() {
    // the line runs up the y axis; the left side is negative x, so a
    // particle at x=2 is pushed onto the line
    let mut ps = vec![Particle::new().id(0).pos(2 * S, 5 * S)];
    let c = Constraint::new(ConstraintShape::BoundaryLine {
        particle: 0,
        start: Vec2::new(0, 0),
        end: Vec2::new(0, 10 * S),
    });
    c.project(&mut ps, S);
    assert_eq!((ps[0].pos.x, ps[0].pos.y), (0, 5 * S));
}

#[test]
fn partial_compliance_corrects_partially() {
    let mut ps = vec![Particle::new().id(0).pos(4 * S, 0)];
    let c = Constraint::new(ConstraintShape::PinToPoint {
        particle: 0,
        point: Vec2::new(0, 0),
    })
    .compliance(S / 2);
    c.project(&mut ps, S);
    assert_eq!(ps[0].pos.x, 2 * S);
    c.project(&mut ps, S);
    assert_eq!(ps[0].pos.x, S);
}

#[test]
fn rgb_packs_into_softbuffer_pixel() {
    assert_eq!(rgb_to_softbuffer((220, 20, 60)), 0xDC143C);
    assert_eq!(rgb_to_softbuffer((0, 0, 0)), 0);
    assert_eq!(rgb_to_softbuffer((255, 255, 255)), 0x00FF_FFFF);
}
