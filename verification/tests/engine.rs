use rusty_particle_physics_2d::constraint::{Constraint, ConstraintKind, ConstraintShape};
use rusty_particle_physics_2d::force::Force;
use rusty_particle_physics_2d::interaction::pause_play;
use rusty_particle_physics_2d::particle::Particle;
use rusty_particle_physics_2d::system::{SimError, System};
use rusty_particle_physics_2d::SCALE;

const S: i64 = SCALE;

#[test]
fn coasting_particle_moves_linearly() {
    // mass=10, position=(0,0), velocity=(5,0), no forces; step(dt=1)
    // => position=(5,0), velocity=(5,0).
    let mut sys = System::new(1, 1);
    let p = Particle::new().pos(0, 0).vel(5 * S, 0);
    sys.add_particle(p).unwrap();
    sys.step(S);
    let ps = sys.particles();
    assert_eq!(ps[0].pos.x, 5 * S);
    assert_eq!(ps[0].pos.y, 0);
    assert_eq!(ps[0].vel.x, 5 * S);
    assert_eq!(ps[0].vel.y, 0);
    assert_eq!(sys.time(), S);
}

#[test]
fn world_gravity_semi_implicit_euler() {
    // mass=10, WorldGravity{g=40}, step(dt=0.01)
    // => velocity=(0,-0.4), position=(0,-0.004): v = -g*dt, p = v*dt.
    let mut sys = System::new(1, 1);
    let id = sys.add_particle(Particle::new().pos(0, 0).vel(0, 0)).unwrap();
    sys.add_force(Force::WorldGravity { target: id, g: 40 * S });
    sys.step(S / 100);
    let ps = sys.particles();
    assert_eq!(ps[0].vel.x, 0);
    assert_eq!(ps[0].vel.y, -S * 4 / 10);
    assert_eq!(ps[0].pos.x, 0);
    assert_eq!(ps[0].pos.y, -S * 4 / 1000);
}

#[test]
fn free_particle_at_rest_stays_put() {
    let mut sys = System::new(4, 3);
    sys.add_particle(Particle::new().pos(7 * S, -2 * S)).unwrap();
    for _ in 0..10 {
        sys.step(S / 60);
    }
    let ps = sys.particles();
    assert_eq!(ps[0].pos.x, 7 * S);
    assert_eq!(ps[0].pos.y, -2 * S);
    assert_eq!(ps[0].vel.x, 0);
    assert_eq!(ps[0].vel.y, 0);
}

#[test]
fn step_zero_changes_nothing() {
    let mut sys = System::new(2, 3);
    sys.add_particle(Particle::new().pos(S, S).vel(3 * S, 0)).unwrap();
    let before_time = sys.time();
    sys.step(0);
    let ps = sys.particles();
    assert_eq!(ps[0].pos.x, S);
    assert_eq!(ps[0].pos.y, S);
    assert_eq!(ps[0].vel.x, 3 * S);
    assert_eq!(sys.time(), before_time);
}

#[test]
fn paused_system_never_changes() {
    let mut sys = System::new(1, 1);
    sys.add_particle(Particle::new().pos(0, 0).vel(5 * S, 0)).unwrap();
    sys.pause();
    for _ in 0..5 {
        sys.step(S);
    }
    let ps = sys.particles();
    assert_eq!(ps[0].pos.x, 0);
    assert_eq!(ps[0].vel.x, 5 * S);
    assert_eq!(sys.time(), 0);
    sys.resume();
    sys.step(S);
    assert_eq!(sys.particles()[0].pos.x, 5 * S);
    assert_eq!(sys.time(), S);
}

#[test]
fn pause_play_toggles() {
    let mut sys = System::new(1, 1);
    assert!(sys.running);
    pause_play(&mut sys);
    assert!(!sys.running);
    pause_play(&mut sys);
    assert!(sys.running);
}

#[test]
fn constant_force_velocity_accumulates() {
    // One raw force F=(2,0) on mass 10: each unit step adds (F/m)*dt = 0.2
    // to the velocity; after N=5 steps of dt=1 the velocity is exactly
    // v0 + (F/m)*N*dt = 1.0 and the position follows the recurrence.
    let mut sys = System::new(1, 1);
    let id = sys.add_particle(Particle::new().pos(0, 0).vel(0, 0)).unwrap();
    sys.add_force(Force::RawForce { target: id, vector: rusty_particle_physics_2d::vec2::Vec2::new(2 * S, 0) });
    let mut expected_pos: i64 = 0;
    let mut expected_vel: i64 = 0;
    for _ in 0..5 {
        sys.step(S);
        expected_vel += S / 5;
        expected_pos += expected_vel;
        let ps = sys.particles();
        assert_eq!(ps[0].vel.x, expected_vel);
        assert_eq!(ps[0].pos.x, expected_pos);
    }
    assert_eq!(sys.particles()[0].vel.x, S);
}

#[test]
fn substeps_divide_the_step() {
    let mut sys = System::new(2, 1);
    sys.add_particle(Particle::new().pos(0, 0).vel(S, 0)).unwrap();
    sys.step(2 * S);
    assert_eq!(sys.particles()[0].pos.x, 2 * S);
    assert_eq!(sys.time(), 2 * S);
}

#[test]
fn link_fixed_distance_restores_distance() {
    // Two particles 3.0 apart linked at distance 1.0 with full compliance:
    // one pass pulls each inward by 1.0, meeting at 1.0 apart exactly.
    let mut sys = System::new(1, 1);
    let a = sys.add_particle(Particle::new().pos(0, 0)).unwrap();
    let b = sys.add_particle(Particle::new().pos(3 * S, 0)).unwrap();
    sys.add_constraint(Constraint::new(ConstraintShape::LinkFixedDistance {
        particle1: a,
        particle2: b,
        dist: S,
    }));
    sys.step(S);
    let ps = sys.particles();
    assert_eq!(ps[0].pos.x, S);
    assert_eq!(ps[1].pos.x, 2 * S);
    assert_eq!(ps[1].pos.x - ps[0].pos.x, S);
}

#[test]
fn pin_to_point_with_full_compliance_is_exact() {
    let mut sys = System::new(1, 1);
    let id = sys.add_particle(Particle::new().pos(7 * S, -3 * S)).unwrap();
    sys.add_constraint(Constraint::new(ConstraintShape::PinToPoint {
        particle: id,
        point: rusty_particle_physics_2d::vec2::Vec2::new(S, 2 * S),
    }));
    sys.step(S);
    let ps = sys.particles();
    assert_eq!(ps[0].pos.x, S);
    assert_eq!(ps[0].pos.y, 2 * S);
}

#[test]
fn stay_in_rect_clamps_by_radius() {
    let mut sys = System::new(1, 1);
    let id = sys.add_particle(Particle::new().pos(0, 0)).unwrap();
    sys.add_constraint(Constraint::new(ConstraintShape::StayInRect {
        particle: id,
        top_left: rusty_particle_physics_2d::vec2::Vec2::new(0, 0),
        bottom_right: rusty_particle_physics_2d::vec2::Vec2::new(100 * S, 100 * S),
    }));
    sys.step(S);
    let ps = sys.particles();
    // default radius is 10.0, so the body is pushed to (10, 10)
    assert_eq!(ps[0].pos.x, 10 * S);
    assert_eq!(ps[0].pos.y, 10 * S);
}

#[test]
fn later_constraints_win_within_a_pass() {
    // Gauss-Seidel in insertion order: with one pass and full compliance,
    // the second pin decides the final position.
    let mut sys = System::new(1, 1);
    let id = sys.add_particle(Particle::new().pos(0, 0)).unwrap();
    sys.add_constraint(Constraint::new(ConstraintShape::PinToPoint {
        particle: id,
        point: rusty_particle_physics_2d::vec2::Vec2::new(3 * S, 0),
    }));
    sys.add_constraint(Constraint::new(ConstraintShape::PinToPoint {
        particle: id,
        point: rusty_particle_physics_2d::vec2::Vec2::new(9 * S, 0),
    }));
    sys.step(S);
    assert_eq!(sys.particles()[0].pos.x, 9 * S);
}

#[test]
fn removal_errors() {
    let mut sys = System::new(1, 1);
    let id = sys.add_particle(Particle::new()).unwrap();
    let fid = sys.add_force(Force::WorldGravity { target: id, g: 40 * S });
    assert_eq!(sys.remove_particle(id), Err(SimError::StillReferenced));
    assert_eq!(sys.remove_force(fid), Ok(()));
    assert_eq!(sys.remove_particle(id), Ok(()));
    assert_eq!(sys.remove_particle(id), Err(SimError::NotFound));
    assert_eq!(sys.remove_force(fid), Err(SimError::NotFound));
    assert_eq!(sys.remove_constraint(0), Err(SimError::NotFound));
}

#[test]
fn constraint_still_references_particle() {
    let mut sys = System::new(1, 1);
    let id = sys.add_particle(Particle::new()).unwrap();
    let cid = sys.add_constraint(Constraint::new(ConstraintShape::PinToPoint {
        particle: id,
        point: rusty_particle_physics_2d::vec2::Vec2::new(0, 0),
    }));
    assert_eq!(sys.remove_particle(id), Err(SimError::StillReferenced));
    assert_eq!(sys.remove_constraint(cid), Ok(()));
    assert_eq!(sys.remove_particle(id), Ok(()));
}

#[test]
fn non_positive_mass_is_rejected() {
    let mut sys = System::new(1, 1);
    assert_eq!(
        sys.add_particle(Particle::new().mass(0)),
        Err(SimError::NonPositiveMass)
    );
    assert_eq!(
        sys.add_particle(Particle::new().mass(-5 * S)),
        Err(SimError::NonPositiveMass)
    );
    assert!(sys.add_particle(Particle::new().mass(S)).is_ok());
}

#[test]
fn ids_are_stable_and_fresh() {
    let mut sys = System::new(1, 1);
    let a = sys.add_particle(Particle::new()).unwrap();
    let b = sys.add_particle(Particle::new()).unwrap();
    assert_eq!(a, 0);
    assert_eq!(b, 1);
    assert_eq!(sys.remove_particle(a), Ok(()));
    let c = sys.add_particle(Particle::new()).unwrap();
    assert_eq!(c, 2);
    let ps = sys.particles();
    assert_eq!(ps[0].id, 1);
    assert_eq!(ps[1].id, 2);
}

#[test]
fn clear_empties_the_tables() {
    let mut sys = System::new(1, 1);
    let id = sys.add_particle(Particle::new()).unwrap();
    sys.add_force(Force::WorldGravity { target: id, g: S });
    sys.add_constraint(Constraint::new(ConstraintShape::PinToPoint {
        particle: id,
        point: rusty_particle_physics_2d::vec2::Vec2::new(0, 0),
    }));
    sys.clear_forces();
    sys.clear_constraints();
    sys.clear_particles();
    assert_eq!(sys.particles().len(), 0);
}

#[test]
fn constraint_kinds() {
    let eq = Constraint::new(ConstraintShape::LinkFixedDistance {
        particle1: 0,
        particle2: 1,
        dist: S,
    });
    let ineq = Constraint::new(ConstraintShape::LinkMaxDistance {
        particle1: 0,
        particle2: 1,
        dist: S,
    });
    assert_eq!(eq.kind(), ConstraintKind::Equality);
    assert_eq!(ineq.kind(), ConstraintKind::Inequality);
    assert_eq!(eq.compliance, S);
    assert!(!eq.broken);
    assert_eq!(eq.compliance(S / 2).compliance, S / 2);
}
