//! For interacting with the simulation while it is running.

use vstd::prelude::*;
use crate::fixed::{q_add, tdiv};
use crate::system::{constraint_vals, same_bodies, same_but_running, substeps_spec, System};
use crate::force::force_vals;

verus! {

/// Toggle the simulation between running and paused.
pub fn pause_play(sim: &mut System)
    ensures
        final(sim).running == !old(sim).running,
        same_but_running(*old(sim), *final(sim)),
{
    sim.running = !sim.running;
}

/// Step the simulation forward in time by the amount `dt`.
pub fn step(sim: &mut System, dt: i64)
    requires
        old(sim).wf(),
    ensures
        final(sim).wf(),
        final(sim).running == old(sim).running,
        final(sim).substeps == old(sim).substeps,
        final(sim).constraint_passes == old(sim).constraint_passes,
        final(sim).forces@ == old(sim).forces@,
        final(sim).constraints@ == old(sim).constraints@,
        final(sim).next_particle_id == old(sim).next_particle_id,
        final(sim).next_force_id == old(sim).next_force_id,
        final(sim).next_constraint_id == old(sim).next_constraint_id,
        same_bodies(old(sim).particles@, final(sim).particles@),
        !old(sim).running ==> *final(sim) == *old(sim),
        old(sim).running ==> final(sim).time as int == q_add(old(sim).time as int, dt as int),
        old(sim).running && tdiv(dt as int, old(sim).substeps as int) == 0 ==> final(
            sim).particles@ == old(sim).particles@,
        old(sim).running && tdiv(dt as int, old(sim).substeps as int) != 0 ==> final(
            sim).particles@ == substeps_spec(
            old(sim).particles@,
            force_vals(old(sim).forces@),
            constraint_vals(old(sim).constraints@),
            old(sim).constraint_passes as nat,
            tdiv(dt as int, old(sim).substeps as int),
            old(sim).substeps as nat,
        ),
{
    sim.step(dt);
}

} // verus!
