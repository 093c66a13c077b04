//! The particle store: index-aligned arrays of per-particle kinematic state,
//! plus the predictor/integrator that advances and re-derives positions.

use vstd::prelude::*;

verus! {

use crate::vec2::{Vec2, spec_vadd, spec_vscale};

/// Per-particle kinematic state as parallel arrays, all of one length.
///
/// `inv_mass` is the reciprocal of the particle's mass; zero marks an
/// immovable particle.  The solvers only ever multiply by it, never divide
/// by a mass.  `radius` is used only by contact-aware modes.
pub struct Particles {
    pub position: Vec<Vec2>,
    pub predicted: Vec<Vec2>,
    pub last_position: Vec<Vec2>,
    pub velocity: Vec<Vec2>,
    pub last_velocity: Vec<Vec2>,
    pub inv_mass: Vec<i64>,
    pub radius: Vec<i64>,
}

/// A predicted position: the current position advanced by one `dt` of the
/// current velocity.
pub open spec fn spec_predict_pos(p: Vec2, v: Vec2, dt: int) -> Vec2 {
    spec_vadd(p, spec_vscale(v, dt))
}

/// A position re-derived from the current velocity and the fixed
/// start-of-step position, as semi-implicit Euler integration demands.
pub open spec fn spec_rederived(v: Vec2, last_p: Vec2, dt: int) -> Vec2 {
    spec_vadd(spec_vscale(v, dt), last_p)
}

impl Particles {
    /// All arrays are index-aligned, inverse masses and radii non-negative.
    pub open spec fn wf(&self) -> bool {
        &&& self.predicted@.len() == self.position@.len()
        &&& self.last_position@.len() == self.position@.len()
        &&& self.velocity@.len() == self.position@.len()
        &&& self.last_velocity@.len() == self.position@.len()
        &&& self.inv_mass@.len() == self.position@.len()
        &&& self.radius@.len() == self.position@.len()
        &&& forall|i: int| 0 <= i < self.position@.len() ==> self.inv_mass@[i] >= 0
        &&& forall|i: int| 0 <= i < self.position@.len() ==> self.radius@[i] >= 0
    }

    /// The number of particles.
    pub fn len(&self) -> (n: usize)
        ensures
            n == self.position@.len(),
    {
        self.position.len()
    }

    /// Snapshot the start-of-step state and advance every position by one
    /// `dt` of its velocity.  Immovable particles predict forward too; the
    /// solvers simply never correct them.
    pub fn predict(&mut self, dt: i64)
        requires
            old(self).wf(),
        ensures
            final(self).wf(),
            final(self).position@.len() == old(self).position@.len(),
            final(self).velocity@ == old(self).velocity@,
            final(self).inv_mass@ == old(self).inv_mass@,
            final(self).radius@ == old(self).radius@,
            forall|k: int|
                0 <= k < final(self).position@.len() ==> {
                    &&& final(self).last_position@[k] == old(self).position@[k]
                    &&& final(self).last_velocity@[k] == old(self).velocity@[k]
                    &&& final(self).position@[k] == spec_predict_pos(
                        old(self).position@[k],
                        old(self).velocity@[k],
                        dt as int,
                    )
                    &&& final(self).predicted@[k] == final(self).position@[k]
                },
    {
        let n = self.position.len();
        let mut i: usize = 0;
        while i < n
            invariant
                i <= n,
                old(self).wf(),
                n == old(self).position@.len(),
                self.position@.len() == n,
                self.predicted@.len() == n,
                self.last_position@.len() == n,
                self.last_velocity@.len() == n,
                self.velocity@ == old(self).velocity@,
                self.inv_mass@ == old(self).inv_mass@,
                self.radius@ == old(self).radius@,
                forall|k: int|
                    i <= k < n ==> self.position@[k] == old(self).position@[k],
                forall|k: int|
                    0 <= k < i ==> {
                        &&& self.last_position@[k] == old(self).position@[k]
                        &&& self.last_velocity@[k] == old(self).velocity@[k]
                        &&& self.position@[k] == spec_predict_pos(
                            old(self).position@[k],
                            old(self).velocity@[k],
                            dt as int,
                        )
                        &&& self.predicted@[k] == self.position@[k]
                    },
            decreases n - i,
        {
            let p = self.position[i];
            let v = self.velocity[i];
            self.last_position[i] = p;
            self.last_velocity[i] = v;
            let np = p.plus(v.scaled(dt));
            self.position[i] = np;
            self.predicted[i] = np;
            i = i + 1;
        }
    }

    /// Re-derive every position from the current velocity and the fixed
    /// start-of-step position (never accumulated incrementally).
    pub fn rederive(&mut self, dt: i64)
        requires
            old(self).wf(),
        ensures
            final(self).wf(),
            final(self).position@.len() == old(self).position@.len(),
            final(self).predicted@ == old(self).predicted@,
            final(self).last_position@ == old(self).last_position@,
            final(self).velocity@ == old(self).velocity@,
            final(self).last_velocity@ == old(self).last_velocity@,
            final(self).inv_mass@ == old(self).inv_mass@,
            final(self).radius@ == old(self).radius@,
            forall|k: int|
                0 <= k < final(self).position@.len() ==> final(self).position@[k] == spec_rederived(
                    final(self).velocity@[k],
                    final(self).last_position@[k],
                    dt as int,
                ),
    {
        let n = self.position.len();
        let mut i: usize = 0;
        while i < n
            invariant
                i <= n,
                old(self).wf(),
                n == old(self).position@.len(),
                self.position@.len() == n,
                self.predicted@ == old(self).predicted@,
                self.last_position@ == old(self).last_position@,
                self.velocity@ == old(self).velocity@,
                self.last_velocity@ == old(self).last_velocity@,
                self.inv_mass@ == old(self).inv_mass@,
                self.radius@ == old(self).radius@,
                forall|k: int|
                    0 <= k < i ==> self.position@[k] == spec_rederived(
                        self.velocity@[k],
                        self.last_position@[k],
                        dt as int,
                    ),
            decreases n - i,
        {
            let v = self.velocity[i];
            let lp = self.last_position[i];
            self.position[i] = v.scaled(dt).plus(lp);
            i = i + 1;
        }
    }
}

} // verus!
