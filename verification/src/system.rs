//! The simulation system: the owner of all particles, forces and
//! constraints, and the fixed-step loop that advances them.
//!
//! Per `step(dt)` while running: the step is divided into `substeps` equal
//! sub-steps (`dt / substeps`, truncated); each sub-step clears every force
//! accumulator, applies every force (insertion order), integrates every
//! particle, runs `constraint_passes` Gauss-Seidel rounds of constraint
//! projection (insertion order, so later constraints see the corrections of
//! earlier ones in the same pass), and finally reconciles every velocity
//! with the realised displacement. The clock then advances by `dt`.
//!
//! Entries of all three tables carry stable ids handed out by monotone
//! counters, so insertion order and id order agree; lookups resolve ids to
//! the first (only) match.

use vstd::prelude::*;
use crate::constraint::{project_spec, shape_references, Constraint};
use crate::fixed::{fx_add, q_add, tdiv, SCALE};
use crate::force::{apply_force_spec, force_references, force_vals, Force};
use crate::particle::{cleared_spec, first_with_id, integrate_spec, reconcile_spec, Particle};

verus! {

broadcast use crate::particle::lemma_first_with_id_from_bounds;

/// Error of a table operation.
#[derive(Clone, Copy, PartialEq, Eq, Structural, Debug)]
pub enum SimError {
    /// no entry with the given id
    NotFound,
    /// a particle whose mass is not positive cannot be integrated
    NonPositiveMass,
    /// the particle is still referenced by a force or a constraint
    StillReferenced,
}

/// A system of interacting particles, forces and constraints.
pub struct System {
    /// whether `step` advances the simulation; toggled externally
    pub running: bool,
    /// number of sub-steps per step, at least 1
    pub substeps: u32,
    /// number of projection rounds per sub-step, at least 1
    pub constraint_passes: u32,
    /// the simulation clock, advanced by `dt` per step while running
    pub time: i64,
    /// the particle table, in insertion order, ids strictly increasing
    pub particles: Vec<Particle>,
    /// the force table: (id, force), in insertion order
    pub forces: Vec<(u32, Force)>,
    /// the constraint table: (id, constraint), in insertion order
    pub constraints: Vec<(u32, Constraint)>,
    /// the next particle id to hand out
    pub next_particle_id: u32,
    /// the next force id to hand out
    pub next_force_id: u32,
    /// the next constraint id to hand out
    pub next_constraint_id: u32,
}

/// The constraints of a constraint table, in order.
pub open spec fn constraint_vals(cs: Seq<(u32, Constraint)>) -> Seq<Constraint> {
    cs.map_values(|t: (u32, Constraint)| t.1)
}

/// `b` has the same bodies as `a`: the same length, and pointwise the same
/// id, mass, radius, color and group (only state may differ).
pub open spec fn same_bodies(a: Seq<Particle>, b: Seq<Particle>) -> bool {
    &&& a.len() == b.len()
    &&& forall|i: int|
        0 <= i < a.len() ==> ((#[trigger] b[i]).id == a[i].id && b[i].mass == a[i].mass
            && b[i].radius == a[i].radius && b[i].color == a[i].color && b[i].group == a[i].group)
}

/// Every force accumulator cleared.
pub open spec fn clear_all_spec(ps: Seq<Particle>) -> Seq<Particle> {
    Seq::new(ps.len(), |i: int| cleared_spec(ps[i]))
}

/// The first `k` forces applied, in order.
pub open spec fn apply_forces_upto(ps: Seq<Particle>, fs: Seq<Force>, k: int) -> Seq<Particle>
    decreases k,
{
    if k <= 0 {
        ps
    } else {
        apply_force_spec(fs[k - 1], apply_forces_upto(ps, fs, k - 1))
    }
}

/// All forces applied, in insertion order.
pub open spec fn apply_forces_spec(ps: Seq<Particle>, fs: Seq<Force>) -> Seq<Particle> {
    apply_forces_upto(ps, fs, fs.len() as int)
}

/// Every particle integrated by one sub-step.
pub open spec fn integrate_all_spec(ps: Seq<Particle>, dt: int) -> Seq<Particle> {
    Seq::new(ps.len(), |i: int| integrate_spec(ps[i], dt))
}

/// The first `k` constraints projected, in order (Gauss-Seidel: each sees
/// the corrections of the ones before it).
pub open spec fn project_upto(ps: Seq<Particle>, cs: Seq<Constraint>, k: int) -> Seq<Particle>
    decreases k,
{
    if k <= 0 {
        ps
    } else {
        project_spec(project_upto(ps, cs, k - 1), cs[k - 1])
    }
}

/// One full projection pass over all constraints, in insertion order.
pub open spec fn project_pass_spec(ps: Seq<Particle>, cs: Seq<Constraint>) -> Seq<Particle> {
    project_upto(ps, cs, cs.len() as int)
}

/// `passes` projection passes.
pub open spec fn project_passes_spec(ps: Seq<Particle>, cs: Seq<Constraint>, passes: nat) -> Seq<
    Particle,
>
    decreases passes,
{
    if passes == 0 {
        ps
    } else {
        project_pass_spec(project_passes_spec(ps, cs, (passes - 1) as nat), cs)
    }
}

/// Every velocity reconciled with the realised displacement.
pub open spec fn reconcile_all_spec(ps: Seq<Particle>, dt: int) -> Seq<Particle> {
    Seq::new(ps.len(), |i: int| reconcile_spec(ps[i], dt))
}

/// One sub-step of size `dt`: clear accumulators, apply forces, integrate,
/// project `passes` rounds, reconcile velocities.
pub open spec fn substep_spec(
    ps: Seq<Particle>,
    fs: Seq<Force>,
    cs: Seq<Constraint>,
    passes: nat,
    dt: int,
) -> Seq<Particle> {
    reconcile_all_spec(
        project_passes_spec(
            integrate_all_spec(apply_forces_spec(clear_all_spec(ps), fs), dt),
            cs,
            passes,
        ),
        dt,
    )
}

/// `k` sub-steps of size `dt`.
pub open spec fn substeps_spec(
    ps: Seq<Particle>,
    fs: Seq<Force>,
    cs: Seq<Constraint>,
    passes: nat,
    dt: int,
    k: nat,
) -> Seq<Particle>
    decreases k,
{
    if k == 0 {
        ps
    } else {
        substep_spec(substeps_spec(ps, fs, cs, passes, dt, (k - 1) as nat), fs, cs, passes, dt)
    }
}

/// Applying one force keeps every body: only force accumulators change.
pub proof fn lemma_apply_force_same_bodies(f: Force, ps: Seq<Particle>)
    ensures
        same_bodies(ps, apply_force_spec(f, ps)),
{
    let r = apply_force_spec(f, ps);
    assert(r.len() == ps.len());
    assert forall|i: int|
        0 <= i < ps.len() implies ((#[trigger] r[i]).id == ps[i].id && r[i].mass == ps[i].mass
        && r[i].radius == ps[i].radius && r[i].color == ps[i].color && r[i].group
        == ps[i].group) by {}
}

/// Projecting one constraint keeps every body: only positions change.
#[verifier::rlimit(50)]
pub proof fn lemma_project_same_bodies(c: Constraint, ps: Seq<Particle>)
    ensures
        same_bodies(ps, project_spec(ps, c)),
{
    let r = project_spec(ps, c);
    assert(r.len() == ps.len());
    assert forall|i: int|
        0 <= i < ps.len() implies ((#[trigger] r[i]).id == ps[i].id && r[i].mass == ps[i].mass
        && r[i].radius == ps[i].radius && r[i].color == ps[i].color && r[i].group
        == ps[i].group) by {}
}

/// `same_bodies` is transitive.
pub proof fn lemma_same_bodies_trans(a: Seq<Particle>, b: Seq<Particle>, c: Seq<Particle>)
    requires
        same_bodies(a, b),
        same_bodies(b, c),
    ensures
        same_bodies(a, c),
{
}

/// Index of the first force entry with the given id at or after `j`.
pub open spec fn first_force_from(fs: Seq<(u32, Force)>, id: u32, j: int) -> int
    decreases fs.len() - j,
{
    if j < 0 || j >= fs.len() {
        -1
    } else if fs[j].0 == id {
        j
    } else {
        first_force_from(fs, id, j + 1)
    }
}

/// Index of the first force entry with the given id, or -1.
pub open spec fn first_force(fs: Seq<(u32, Force)>, id: u32) -> int {
    first_force_from(fs, id, 0)
}

/// Index of the first constraint entry with the given id at or after `j`.
pub open spec fn first_constraint_from(cs: Seq<(u32, Constraint)>, id: u32, j: int) -> int
    decreases cs.len() - j,
{
    if j < 0 || j >= cs.len() {
        -1
    } else if cs[j].0 == id {
        j
    } else {
        first_constraint_from(cs, id, j + 1)
    }
}

/// Index of the first constraint entry with the given id, or -1.
pub open spec fn first_constraint(cs: Seq<(u32, Constraint)>, id: u32) -> int {
    first_constraint_from(cs, id, 0)
}

/// All fields equal but the running flag.
pub open spec fn same_but_running(a: System, b: System) -> bool {
    &&& b.substeps == a.substeps
    &&& b.constraint_passes == a.constraint_passes
    &&& b.time == a.time
    &&& b.particles@ == a.particles@
    &&& b.forces@ == a.forces@
    &&& b.constraints@ == a.constraints@
    &&& b.next_particle_id == a.next_particle_id
    &&& b.next_force_id == a.next_force_id
    &&& b.next_constraint_id == a.next_constraint_id
}

/// All fields equal but the particle table and its id counter.
pub open spec fn same_but_particles(a: System, b: System) -> bool {
    &&& b.running == a.running
    &&& b.substeps == a.substeps
    &&& b.constraint_passes == a.constraint_passes
    &&& b.time == a.time
    &&& b.forces@ == a.forces@
    &&& b.constraints@ == a.constraints@
    &&& b.next_force_id == a.next_force_id
    &&& b.next_constraint_id == a.next_constraint_id
}

/// All fields equal but the force table and its id counter.
pub open spec fn same_but_forces(a: System, b: System) -> bool {
    &&& b.running == a.running
    &&& b.substeps == a.substeps
    &&& b.constraint_passes == a.constraint_passes
    &&& b.time == a.time
    &&& b.particles@ == a.particles@
    &&& b.constraints@ == a.constraints@
    &&& b.next_particle_id == a.next_particle_id
    &&& b.next_constraint_id == a.next_constraint_id
}

/// All fields equal but the constraint table and its id counter.
pub open spec fn same_but_constraints(a: System, b: System) -> bool {
    &&& b.running == a.running
    &&& b.substeps == a.substeps
    &&& b.constraint_passes == a.constraint_passes
    &&& b.time == a.time
    &&& b.particles@ == a.particles@
    &&& b.forces@ == a.forces@
    &&& b.next_particle_id == a.next_particle_id
    &&& b.next_force_id == a.next_force_id
}

/// Some force in the table references the particle id.
pub open spec fn any_force_references(fs: Seq<(u32, Force)>, id: u32) -> bool {
    exists|i: int| 0 <= i < fs.len() && force_references((#[trigger] fs[i]).1, id)
}

/// Some constraint in the table references the particle id.
pub open spec fn any_constraint_references(cs: Seq<(u32, Constraint)>, id: u32) -> bool {
    exists|i: int| 0 <= i < cs.len() && shape_references((#[trigger] cs[i]).1.shape, id)
}

impl System {
    /// Table well-formedness: sub-stepping parameters at least 1, positive
    /// masses, and strictly increasing ids below the counters in all three
    /// tables.
    pub open spec fn wf(self) -> bool {
        &&& self.substeps >= 1
        &&& self.constraint_passes >= 1
        &&& forall|i: int|
            0 <= i < self.particles@.len() ==> (#[trigger] self.particles@[i]).mass > 0
        &&& forall|i: int|
            0 <= i < self.particles@.len() ==> (#[trigger] self.particles@[i]).id
                < self.next_particle_id
        &&& forall|i: int, j: int|
            0 <= i < j < self.particles@.len() ==> (#[trigger] self.particles@[i]).id < (
            #[trigger] self.particles@[j]).id
        &&& forall|i: int|
            0 <= i < self.forces@.len() ==> (#[trigger] self.forces@[i]).0 < self.next_force_id
        &&& forall|i: int, j: int|
            0 <= i < j < self.forces@.len() ==> (#[trigger] self.forces@[i]).0 < (
            #[trigger] self.forces@[j]).0
        &&& forall|i: int|
            0 <= i < self.constraints@.len() ==> (#[trigger] self.constraints@[i]).0
                < self.next_constraint_id
        &&& forall|i: int, j: int|
            0 <= i < j < self.constraints@.len() ==> (#[trigger] self.constraints@[i]).0 < (
            #[trigger] self.constraints@[j]).0
    }

    /// Construct an empty, running system with the given sub-stepping.
    pub fn new(substeps: u32, constraint_passes: u32) -> (s: System)
        requires
            substeps >= 1,
            constraint_passes >= 1,
        ensures
            s.wf(),
            s.running,
            s.substeps == substeps,
            s.constraint_passes == constraint_passes,
            s.time == 0,
            s.particles@ =~= Seq::<Particle>::empty(),
            s.forces@ =~= Seq::<(u32, Force)>::empty(),
            s.constraints@ =~= Seq::<(u32, Constraint)>::empty(),
            s.next_particle_id == 0,
            s.next_force_id == 0,
            s.next_constraint_id == 0,
    {
        System {
            running: true,
            substeps,
            constraint_passes,
            time: 0,
            particles: Vec::new(),
            forces: Vec::new(),
            constraints: Vec::new(),
            next_particle_id: 0,
            next_force_id: 0,
            next_constraint_id: 0,
        }
    }

    /// The current simulation time.
    pub fn time(&self) -> (t: i64)
        ensures
            t == self.time,
    {
        self.time
    }

    /// A read-only view of the particle table (position, radius, color and
    /// the rest), for a renderer to consume between steps.
    pub fn particles(&self) -> (ps: &Vec<Particle>)
        ensures
            ps@ == self.particles@,
    {
        &self.particles
    }

    /// Stop `step` from advancing the simulation.
    pub fn pause(&mut self)
        ensures
            !final(self).running,
            same_but_running(*old(self), *final(self)),
    {
        self.running = false;
    }

    /// Let `step` advance the simulation again.
    pub fn resume(&mut self)
        ensures
            final(self).running,
            same_but_running(*old(self), *final(self)),
    {
        self.running = true;
    }

    /// Insert a particle: it receives the next id and joins the end of the
    /// table. A particle whose mass is not positive is rejected, since
    /// integration divides by the mass.
    pub fn add_particle(&mut self, particle: Particle) -> (r: Result<u32, SimError>)
        requires
            old(self).wf(),
            old(self).next_particle_id < u32::MAX,
        ensures
            final(self).wf(),
            particle.mass <= 0 ==> r == Result::<u32, SimError>::Err(SimError::NonPositiveMass)
                && *final(self) == *old(self),
            particle.mass > 0 ==> ({
                &&& r == Result::<u32, SimError>::Ok(old(self).next_particle_id)
                &&& same_but_particles(*old(self), *final(self))
                &&& final(self).particles@ == old(self).particles@.push(
                    Particle { id: old(self).next_particle_id, ..particle },
                )
                &&& final(self).next_particle_id == old(self).next_particle_id + 1
            }),
    {
        if particle.mass <= 0 {
            return Err(SimError::NonPositiveMass);
        }
        let id = self.next_particle_id;
        self.particles.push(particle.id(id));
        self.next_particle_id = id + 1;
        Ok(id)
    }

    /// Remove the particle with the given id. Fails with `NotFound` when no
    /// particle has the id, and with `StillReferenced` when a force or a
    /// constraint still names it (removal does not cascade).
    pub fn remove_particle(&mut self, id: u32) -> (r: Result<(), SimError>)
        requires
            old(self).wf(),
        ensures
            final(self).wf(),
            ({
                let i = first_with_id(old(self).particles@, id);
                if i < 0 {
                    r == Result::<(), SimError>::Err(SimError::NotFound) && *final(self) == *old(
                        self)
                } else if any_force_references(old(self).forces@, id) || any_constraint_references(
                    old(self).constraints@, id) {
                    r == Result::<(), SimError>::Err(SimError::StillReferenced) && *final(self)
                        == *old(self)
                } else {
                    &&& r == Result::<(), SimError>::Ok(())
                    &&& same_but_particles(*old(self), *final(self))
                    &&& final(self).particles@ == old(self).particles@.remove(i)
                    &&& final(self).next_particle_id == old(self).next_particle_id
                }
            }),
    {
        let found = crate::particle::find_particle(&self.particles, id);
        match found {
            None => Err(SimError::NotFound),
            Some(i) => {
                let nf = self.forces.len();
                let mut k: usize = 0;
                while k < nf
                    invariant
                        old(self).wf(),
                        first_with_id(old(self).particles@, id) == i as int,
                        k <= nf,
                        *self == *old(self),
                        nf == self.forces@.len(),
                        forall|t: int|
                            0 <= t < k ==> !force_references((#[trigger] self.forces@[t]).1, id),
                    decreases nf - k,
                {
                    if crate::force::references(&self.forces[k].1, id) {
                        proof {
                            assert(force_references(old(self).forces@[k as int].1, id));
                            assert(any_force_references(old(self).forces@, id));
                        }
                        return Err(SimError::StillReferenced);
                    }
                    k = k + 1;
                }
                let nc = self.constraints.len();
                let mut k2: usize = 0;
                while k2 < nc
                    invariant
                        old(self).wf(),
                        first_with_id(old(self).particles@, id) == i as int,
                        k2 <= nc,
                        *self == *old(self),
                        nc == self.constraints@.len(),
                        forall|t: int|
                            0 <= t < k2 ==> !shape_references(
                                (#[trigger] self.constraints@[t]).1.shape,
                                id,
                            ),
                    decreases nc - k2,
                {
                    if crate::constraint::references(&self.constraints[k2].1.shape, id) {
                        proof {
                            assert(shape_references(old(self).constraints@[k2 as int].1.shape, id));
                            assert(any_constraint_references(old(self).constraints@, id));
                        }
                        return Err(SimError::StillReferenced);
                    }
                    k2 = k2 + 1;
                }
                self.particles.remove(i);
                proof {
                    old(self).particles@.remove_ensures(i as int);
                    assert forall|a: int|
                        0 <= a < self.particles@.len() implies ((#[trigger] self.particles@[a]).mass
                        > 0 && self.particles@[a].id < self.next_particle_id) by {
                        assert(self.particles@[a] == if a < i as int {
                            old(self).particles@[a]
                        } else {
                            old(self).particles@[a + 1]
                        });
                    }
                    assert forall|a: int, b: int|
                        0 <= a < b < self.particles@.len() implies (
                    #[trigger] self.particles@[a]).id < (#[trigger] self.particles@[b]).id by {
                        assert(self.particles@[a] == if a < i as int {
                            old(self).particles@[a]
                        } else {
                            old(self).particles@[a + 1]
                        });
                        assert(self.particles@[b] == if b < i as int {
                            old(self).particles@[b]
                        } else {
                            old(self).particles@[b + 1]
                        });
                    }
                }
                Ok(())
            },
        }
    }

    /// Empty the particle table. Forces and constraints stay; their dangling
    /// references simply contribute nothing when applied.
    pub fn clear_particles(&mut self)
        requires
            old(self).wf(),
        ensures
            final(self).wf(),
            same_but_particles(*old(self), *final(self)),
            final(self).particles@ =~= Seq::<Particle>::empty(),
            final(self).next_particle_id == old(self).next_particle_id,
    {
        self.particles.clear();
    }

    /// Insert a force; it receives the next force id.
    pub fn add_force(&mut self, force: Force) -> (id: u32)
        requires
            old(self).wf(),
            old(self).next_force_id < u32::MAX,
        ensures
            final(self).wf(),
            id == old(self).next_force_id,
            same_but_forces(*old(self), *final(self)),
            final(self).forces@ == old(self).forces@.push((old(self).next_force_id, force)),
            final(self).next_force_id == old(self).next_force_id + 1,
    {
        let id = self.next_force_id;
        self.forces.push((id, force));
        self.next_force_id = id + 1;
        id
    }

    /// Remove the force with the given id, or fail with `NotFound`.
    pub fn remove_force(&mut self, id: u32) -> (r: Result<(), SimError>)
        requires
            old(self).wf(),
        ensures
            final(self).wf(),
            ({
                let i = first_force(old(self).forces@, id);
                if i < 0 {
                    r == Result::<(), SimError>::Err(SimError::NotFound) && *final(self) == *old(
                        self)
                } else {
                    &&& r == Result::<(), SimError>::Ok(())
                    &&& same_but_forces(*old(self), *final(self))
                    &&& final(self).forces@ == old(self).forces@.remove(i)
                    &&& final(self).next_force_id == old(self).next_force_id
                }
            }),
    {
        let n = self.forces.len();
        let mut j: usize = 0;
        while j < n
            invariant
                old(self).wf(),
                j <= n,
                *self == *old(self),
                n == self.forces@.len(),
                first_force(self.forces@, id) == first_force_from(self.forces@, id, j as int),
            decreases n - j,
        {
            if self.forces[j].0 == id {
                self.forces.remove(j);
                proof {
                    old(self).forces@.remove_ensures(j as int);
                    assert forall|a: int|
                        0 <= a < self.forces@.len() implies (#[trigger] self.forces@[a]).0
                        < self.next_force_id by {
                        assert(self.forces@[a] == if a < j as int {
                            old(self).forces@[a]
                        } else {
                            old(self).forces@[a + 1]
                        });
                    }
                    assert forall|a: int, b: int|
                        0 <= a < b < self.forces@.len() implies (#[trigger] self.forces@[a]).0 < (
                    #[trigger] self.forces@[b]).0 by {
                        assert(self.forces@[a] == if a < j as int {
                            old(self).forces@[a]
                        } else {
                            old(self).forces@[a + 1]
                        });
                        assert(self.forces@[b] == if b < j as int {
                            old(self).forces@[b]
                        } else {
                            old(self).forces@[b + 1]
                        });
                    }
                }
                return Ok(());
            }
            j = j + 1;
        }
        Err(SimError::NotFound)
    }

    /// Empty the force table.
    pub fn clear_forces(&mut self)
        requires
            old(self).wf(),
        ensures
            final(self).wf(),
            same_but_forces(*old(self), *final(self)),
            final(self).forces@ =~= Seq::<(u32, Force)>::empty(),
            final(self).next_force_id == old(self).next_force_id,
    {
        self.forces.clear();
    }

    /// Insert a constraint; it receives the next constraint id.
    pub fn add_constraint(&mut self, constraint: Constraint) -> (id: u32)
        requires
            old(self).wf(),
            old(self).next_constraint_id < u32::MAX,
        ensures
            final(self).wf(),
            id == old(self).next_constraint_id,
            same_but_constraints(*old(self), *final(self)),
            final(self).constraints@ == old(self).constraints@.push(
                (old(self).next_constraint_id, constraint),
            ),
            final(self).next_constraint_id == old(self).next_constraint_id + 1,
    {
        let id = self.next_constraint_id;
        self.constraints.push((id, constraint));
        self.next_constraint_id = id + 1;
        id
    }

    /// Remove the constraint with the given id, or fail with `NotFound`.
    pub fn remove_constraint(&mut self, id: u32) -> (r: Result<(), SimError>)
        requires
            old(self).wf(),
        ensures
            final(self).wf(),
            ({
                let i = first_constraint(old(self).constraints@, id);
                if i < 0 {
                    r == Result::<(), SimError>::Err(SimError::NotFound) && *final(self) == *old(
                        self)
                } else {
                    &&& r == Result::<(), SimError>::Ok(())
                    &&& same_but_constraints(*old(self), *final(self))
                    &&& final(self).constraints@ == old(self).constraints@.remove(i)
                    &&& final(self).next_constraint_id == old(self).next_constraint_id
                }
            }),
    {
        let n = self.constraints.len();
        let mut j: usize = 0;
        while j < n
            invariant
                old(self).wf(),
                j <= n,
                *self == *old(self),
                n == self.constraints@.len(),
                first_constraint(self.constraints@, id) == first_constraint_from(
                    self.constraints@,
                    id,
                    j as int,
                ),
            decreases n - j,
        {
            if self.constraints[j].0 == id {
                self.constraints.remove(j);
                proof {
                    old(self).constraints@.remove_ensures(j as int);
                    assert forall|a: int|
                        0 <= a < self.constraints@.len() implies (
                        #[trigger] self.constraints@[a]).0 < self.next_constraint_id by {
                        assert(self.constraints@[a] == if a < j as int {
                            old(self).constraints@[a]
                        } else {
                            old(self).constraints@[a + 1]
                        });
                    }
                    assert forall|a: int, b: int|
                        0 <= a < b < self.constraints@.len() implies (
                    #[trigger] self.constraints@[a]).0 < (#[trigger] self.constraints@[b]).0 by {
                        assert(self.constraints@[a] == if a < j as int {
                            old(self).constraints@[a]
                        } else {
                            old(self).constraints@[a + 1]
                        });
                        assert(self.constraints@[b] == if b < j as int {
                            old(self).constraints@[b]
                        } else {
                            old(self).constraints@[b + 1]
                        });
                    }
                }
                return Ok(());
            }
            j = j + 1;
        }
        Err(SimError::NotFound)
    }

    /// Empty the constraint table.
    pub fn clear_constraints(&mut self)
        requires
            old(self).wf(),
        ensures
            final(self).wf(),
            same_but_constraints(*old(self), *final(self)),
            final(self).constraints@ =~= Seq::<(u32, Constraint)>::empty(),
            final(self).next_constraint_id == old(self).next_constraint_id,
    {
        self.constraints.clear();
    }

    /// Step the simulation forward by `dt`. A paused system is left exactly
    /// as it is. While running, the particles advance by `substeps`
    /// sub-steps of size `dt / substeps` (truncated; a zero sub-step, in
    /// particular `dt == 0`, advances no particle) and the clock advances
    /// by `dt`.
    pub fn step(&mut self, dt: i64)
        requires
            old(self).wf(),
        ensures
            final(self).wf(),
            final(self).running == old(self).running,
            final(self).substeps == old(self).substeps,
            final(self).constraint_passes == old(self).constraint_passes,
            final(self).forces@ == old(self).forces@,
            final(self).constraints@ == old(self).constraints@,
            final(self).next_particle_id == old(self).next_particle_id,
            final(self).next_force_id == old(self).next_force_id,
            final(self).next_constraint_id == old(self).next_constraint_id,
            same_bodies(old(self).particles@, final(self).particles@),
            !old(self).running ==> *final(self) == *old(self),
            old(self).running ==> final(self).time as int == q_add(
                old(self).time as int,
                dt as int,
            ),
            old(self).running && tdiv(dt as int, old(self).substeps as int) == 0 ==> final(
                self).particles@ == old(self).particles@,
            old(self).running && tdiv(dt as int, old(self).substeps as int) != 0 ==> final(
                self).particles@ == substeps_spec(
                old(self).particles@,
                force_vals(old(self).forces@),
                constraint_vals(old(self).constraints@),
                old(self).constraint_passes as nat,
                tdiv(dt as int, old(self).substeps as int),
                old(self).substeps as nat,
            ),
    {
        if !self.running {
            return ;
        }
        let subs = self.substeps;
        let sub_dt = dt / (subs as i64);
        if sub_dt != 0 {
            let ghost orig = *self;
            let mut s: u32 = 0;
            while s < subs
                invariant
                    s <= subs,
                    sub_dt != 0,
                    subs == orig.substeps,
                    orig.wf(),
                    self.running == orig.running,
                    self.substeps == orig.substeps,
                    self.constraint_passes == orig.constraint_passes,
                    self.time == orig.time,
                    self.forces@ == orig.forces@,
                    self.constraints@ == orig.constraints@,
                    self.next_particle_id == orig.next_particle_id,
                    self.next_force_id == orig.next_force_id,
                    self.next_constraint_id == orig.next_constraint_id,
                    same_bodies(orig.particles@, self.particles@),
                    self.particles@ == substeps_spec(
                        orig.particles@,
                        force_vals(orig.forces@),
                        constraint_vals(orig.constraints@),
                        orig.constraint_passes as nat,
                        sub_dt as int,
                        s as nat,
                    ),
                decreases subs - s,
            {
                let ghost before = self.particles@;
                substep(
                    &mut self.particles,
                    &self.forces,
                    &self.constraints,
                    self.constraint_passes,
                    sub_dt,
                );
                proof {
                    lemma_same_bodies_trans(orig.particles@, before, self.particles@);
                }
                s = s + 1;
            }
        }
        self.time = fx_add(self.time, dt);
    }
}

/// Clear every particle's force accumulator.
fn clear_all(particles: &mut Vec<Particle>)
    ensures
        final(particles)@ == clear_all_spec(old(particles)@),
        same_bodies(old(particles)@, final(particles)@),
{
    let n = particles.len();
    let mut i: usize = 0;
    while i < n
        invariant
            i <= n,
            n == particles@.len(),
            particles@.len() == old(particles)@.len(),
            forall|k: int| 0 <= k < i ==> particles@[k] == cleared_spec(#[trigger] old(particles)@[k]),
            forall|k: int| i <= k < n ==> #[trigger] particles@[k] == old(particles)@[k],
        decreases n - i,
    {
        let mut p = particles[i];
        p.clear_force();
        particles[i] = p;
        i = i + 1;
    }
    proof {
        assert(particles@ =~= clear_all_spec(old(particles)@));
    }
}

/// Apply every force to the particle table, in insertion order.
fn apply_forces(particles: &mut Vec<Particle>, forces: &Vec<(u32, Force)>)
    ensures
        final(particles)@ == apply_forces_spec(old(particles)@, force_vals(forces@)),
        same_bodies(old(particles)@, final(particles)@),
{
    let n = forces.len();
    let mut k: usize = 0;
    proof {
        assert(same_bodies(old(particles)@, particles@));
    }
    while k < n
        invariant
            k <= n,
            n == forces@.len(),
            particles@ == apply_forces_upto(old(particles)@, force_vals(forces@), k as int),
            same_bodies(old(particles)@, particles@),
        decreases n - k,
    {
        let ghost before = particles@;
        let f = forces[k].1;
        f.apply(particles);
        proof {
            assert(force_vals(forces@)[k as int] == f);
            lemma_apply_force_same_bodies(f, before);
            lemma_same_bodies_trans(old(particles)@, before, particles@);
        }
        k = k + 1;
    }
}

/// Integrate every particle by one sub-step.
fn integrate_all(particles: &mut Vec<Particle>, dt: i64)
    requires
        forall|i: int|
            0 <= i < old(particles)@.len() ==> (#[trigger] old(particles)@[i]).mass > 0,
    ensures
        final(particles)@ == integrate_all_spec(old(particles)@, dt as int),
        same_bodies(old(particles)@, final(particles)@),
{
    let n = particles.len();
    let mut i: usize = 0;
    while i < n
        invariant
            i <= n,
            n == particles@.len(),
            particles@.len() == old(particles)@.len(),
            forall|k: int|
                0 <= k < old(particles)@.len() ==> (#[trigger] old(particles)@[k]).mass > 0,
            forall|k: int|
                0 <= k < i ==> particles@[k] == integrate_spec(
                    #[trigger] old(particles)@[k],
                    dt as int,
                ),
            forall|k: int| i <= k < n ==> #[trigger] particles@[k] == old(particles)@[k],
        decreases n - i,
    {
        let mut p = particles[i];
        p.update(dt);
        particles[i] = p;
        i = i + 1;
    }
    proof {
        assert(particles@ =~= integrate_all_spec(old(particles)@, dt as int));
    }
}

/// One Gauss-Seidel projection pass over all constraints, in insertion
/// order.
fn project_pass(particles: &mut Vec<Particle>, constraints: &Vec<(u32, Constraint)>, dt: i64)
    ensures
        final(particles)@ == project_pass_spec(old(particles)@, constraint_vals(constraints@)),
        same_bodies(old(particles)@, final(particles)@),
{
    let n = constraints.len();
    let mut k: usize = 0;
    while k < n
        invariant
            k <= n,
            n == constraints@.len(),
            particles@ == project_upto(old(particles)@, constraint_vals(constraints@), k as int),
            same_bodies(old(particles)@, particles@),
        decreases n - k,
    {
        let ghost before = particles@;
        let c = constraints[k].1;
        c.project(particles, dt);
        proof {
            assert(constraint_vals(constraints@)[k as int] == c);
            lemma_project_same_bodies(c, before);
            lemma_same_bodies_trans(old(particles)@, before, particles@);
        }
        k = k + 1;
    }
}

/// Reconcile every particle's velocity with its realised displacement.
fn reconcile_all(particles: &mut Vec<Particle>, dt: i64)
    requires
        dt != 0,
    ensures
        final(particles)@ == reconcile_all_spec(old(particles)@, dt as int),
        same_bodies(old(particles)@, final(particles)@),
{
    let n = particles.len();
    let mut i: usize = 0;
    while i < n
        invariant
            i <= n,
            dt != 0,
            n == particles@.len(),
            particles@.len() == old(particles)@.len(),
            forall|k: int|
                0 <= k < i ==> particles@[k] == reconcile_spec(
                    #[trigger] old(particles)@[k],
                    dt as int,
                ),
            forall|k: int| i <= k < n ==> #[trigger] particles@[k] == old(particles)@[k],
        decreases n - i,
    {
        let mut p = particles[i];
        p.update_vel(dt);
        particles[i] = p;
        i = i + 1;
    }
    proof {
        assert(particles@ =~= reconcile_all_spec(old(particles)@, dt as int));
    }
}

/// One sub-step: clear, apply forces, integrate, project `passes` rounds,
/// reconcile.
fn substep(
    particles: &mut Vec<Particle>,
    forces: &Vec<(u32, Force)>,
    constraints: &Vec<(u32, Constraint)>,
    passes: u32,
    dt: i64,
)
    requires
        dt != 0,
        forall|i: int|
            0 <= i < old(particles)@.len() ==> (#[trigger] old(particles)@[i]).mass > 0,
    ensures
        final(particles)@ == substep_spec(
            old(particles)@,
            force_vals(forces@),
            constraint_vals(constraints@),
            passes as nat,
            dt as int,
        ),
        same_bodies(old(particles)@, final(particles)@),
{
    clear_all(particles);
    let ghost after_clear = particles@;
    apply_forces(particles, forces);
    proof {
        lemma_same_bodies_trans(old(particles)@, after_clear, particles@);
    }
    let ghost after_forces = particles@;
    integrate_all(particles, dt);
    proof {
        lemma_same_bodies_trans(old(particles)@, after_forces, particles@);
    }
    let ghost after_integrate = particles@;
    let mut pass: u32 = 0;
    while pass < passes
        invariant
            pass <= passes,
            particles@ == project_passes_spec(
                after_integrate,
                constraint_vals(constraints@),
                pass as nat,
            ),
            same_bodies(after_integrate, particles@),
        decreases passes - pass,
    {
        let ghost before = particles@;
        project_pass(particles, constraints, dt);
        proof {
            lemma_same_bodies_trans(after_integrate, before, particles@);
        }
        pass = pass + 1;
    }
    proof {
        lemma_same_bodies_trans(old(particles)@, after_integrate, particles@);
    }
    let ghost after_project = particles@;
    reconcile_all(particles, dt);
    proof {
        lemma_same_bodies_trans(old(particles)@, after_project, particles@);
    }
}



/// Projection over an empty constraint table changes nothing, however many
/// passes run.
pub proof fn lemma_project_passes_empty(ps: Seq<Particle>, passes: nat)
    ensures
        project_passes_spec(ps, Seq::<Constraint>::empty(), passes) == ps,
    decreases passes,
{
    if passes > 0 {
        lemma_project_passes_empty(ps, (passes - 1) as nat);
    }
}

/// A free particle at rest stays exactly where it is: with no forces and no
/// constraints, any number of sub-steps of any nonzero size leaves the
/// position unchanged and the velocity zero. (A particle with nonzero
/// velocity moves, and a zero sub-step never reaches the integrator: the
/// stepping loop skips it.)
pub proof fn lemma_free_particle_at_rest(ps: Seq<Particle>, passes: nat, dt: int, k: nat)
    requires
        dt != 0,
        forall|i: int|
            0 <= i < ps.len() ==> (#[trigger] ps[i]).mass > 0 && ps[i].vel
                == crate::vec2::v_zero(),
    ensures
        ({
            let r = substeps_spec(ps, Seq::<Force>::empty(), Seq::<Constraint>::empty(), passes,
                dt, k);
            r.len() == ps.len() && forall|i: int|
                0 <= i < ps.len() ==> (#[trigger] r[i]).pos == ps[i].pos && r[i].vel
                    == crate::vec2::v_zero() && r[i].mass == ps[i].mass
        }),
    decreases k,
{
    if k > 0 {
        lemma_free_particle_at_rest(ps, passes, dt, (k - 1) as nat);
        let prev = substeps_spec(ps, Seq::<Force>::empty(), Seq::<Constraint>::empty(), passes,
            dt, (k - 1) as nat);
        let cleared = clear_all_spec(prev);
        let forced = apply_forces_spec(cleared, Seq::<Force>::empty());
        assert(forced == cleared);
        let integrated = integrate_all_spec(forced, dt);
        lemma_project_passes_empty(integrated, passes);
        let r = reconcile_all_spec(integrated, dt);
        assert forall|i: int|
            0 <= i < ps.len() implies (#[trigger] r[i]).pos == ps[i].pos && r[i].vel
            == crate::vec2::v_zero() && r[i].mass == ps[i].mass by {
            assert(prev[i].vel == crate::vec2::v_zero() && prev[i].mass == ps[i].mass
                && prev[i].pos == ps[i].pos);
            assert(cleared[i] == cleared_spec(prev[i]));
            assert(integrated[i] == integrate_spec(cleared[i], dt));
            assert(r[i] == reconcile_spec(integrated[i], dt));
            vstd::arithmetic::div_mod::lemma_div_basics(prev[i].mass as int);
            vstd::arithmetic::div_mod::lemma_div_basics(dt);
            vstd::arithmetic::div_mod::lemma_div_basics(SCALE as int);
            vstd::arithmetic::mul::lemma_mul_by_zero_is_zero(dt);
            vstd::arithmetic::mul::lemma_mul_by_zero_is_zero(SCALE as int);
            assert(crate::vec2::v_divide(crate::vec2::v_zero(), prev[i].mass as int)
                == crate::vec2::v_zero());
            assert(crate::vec2::v_scale(crate::vec2::v_zero(), dt) == crate::vec2::v_zero());
            assert(integrated[i].vel == crate::vec2::v_zero());
            assert(integrated[i].pos == ps[i].pos);
            assert(integrated[i].prev_pos == ps[i].pos);
            assert(crate::vec2::v_sub(integrated[i].pos, integrated[i].prev_pos)
                == crate::vec2::v_zero());
            assert(r[i].vel == crate::vec2::v_zero());
        }
    }
}

/// One step of the symplectic-Euler recurrence for a free particle whose
/// velocity gains the constant increment `dv` each sub-step: the new
/// velocity moves the position, and reconciliation rederives the velocity
/// from the realised displacement.
pub open spec fn euler_free_step(pos: crate::vec2::Vec2, vel: crate::vec2::Vec2,
    dv: crate::vec2::Vec2, dt: int) -> (crate::vec2::Vec2, crate::vec2::Vec2) {
    let vel1 = crate::vec2::v_add(vel, dv);
    let pos1 = crate::vec2::v_add(pos, crate::vec2::v_scale(vel1, dt));
    let vel2 = crate::vec2::v_divide(crate::vec2::v_sub(pos1, pos), dt);
    (pos1, vel2)
}

/// `k` iterations of the recurrence.
pub open spec fn euler_free_iter(pos: crate::vec2::Vec2, vel: crate::vec2::Vec2,
    dv: crate::vec2::Vec2, dt: int, k: nat) -> (crate::vec2::Vec2, crate::vec2::Vec2)
    decreases k,
{
    if k == 0 {
        (pos, vel)
    } else {
        let s = euler_free_iter(pos, vel, dv, dt, (k - 1) as nat);
        euler_free_step(s.0, s.1, dv, dt)
    }
}

/// A single particle under one constant raw force `f_vec`, with no
/// constraints, follows the closed-form symplectic-Euler recurrence exactly:
/// after `k` sub-steps of size `dt`, its position and velocity are the `k`th
/// iterate of `euler_free_step` with the per-sub-step velocity increment
/// `(f_vec / mass) * dt`.
pub proof fn lemma_constant_force_recurrence(p: Particle, f_vec: crate::vec2::Vec2, passes: nat,
    dt: int, k: nat)
    requires
        dt != 0,
        p.mass > 0,
    ensures
        ({
            let fs = seq![Force::RawForce { target: p.id, vector: f_vec }];
            let r = substeps_spec(seq![p], fs, Seq::<Constraint>::empty(), passes, dt, k);
            let dv = crate::vec2::v_scale(crate::vec2::v_divide(f_vec, p.mass as int), dt);
            let e = euler_free_iter(p.pos, p.vel, dv, dt, k);
            r.len() == 1 && r[0].pos == e.0 && r[0].vel == e.1 && r[0].mass == p.mass && r[0].id
                == p.id
        }),
    decreases k,
{
    let fs = seq![Force::RawForce { target: p.id, vector: f_vec }];
    let dv = crate::vec2::v_scale(crate::vec2::v_divide(f_vec, p.mass as int), dt);
    if k > 0 {
        lemma_constant_force_recurrence(p, f_vec, passes, dt, (k - 1) as nat);
        let prev = substeps_spec(seq![p], fs, Seq::<Constraint>::empty(), passes, dt, (
        k - 1) as nat);
        let e_prev = euler_free_iter(p.pos, p.vel, dv, dt, (k - 1) as nat);
        let cleared = clear_all_spec(prev);
        assert(cleared[0] == cleared_spec(prev[0]));
        let forced = apply_forces_spec(cleared, fs);
        assert(apply_forces_upto(cleared, fs, 0) == cleared);
        assert(forced == apply_force_spec(fs[0], cleared));
        assert(first_with_id(cleared, p.id) == 0);
        assert(forced[0].force_accum == crate::vec2::v_add(crate::vec2::v_zero(), f_vec));
        assert(forced[0].force_accum == f_vec);
        let integrated = integrate_all_spec(forced, dt);
        assert(integrated[0] == integrate_spec(forced[0], dt));
        lemma_project_passes_empty(integrated, passes);
        let r = reconcile_all_spec(integrated, dt);
        assert(r[0] == reconcile_spec(integrated[0], dt));
        assert(integrated[0].vel == crate::vec2::v_add(e_prev.1, dv));
    }
}

} // verus!
