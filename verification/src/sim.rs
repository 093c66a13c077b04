//! The simulation step driver: a validated configuration selecting one of
//! the three solver strategies, and a `step` operation that sequences
//! predict, contact generation, the fixed-iteration solve, and the final
//! position reconciliation.  All state is owned by one `Simulation` value.

use vstd::prelude::*;

verus! {

use crate::fp::{SCALE, fdiv, div_fp};
use crate::vec2::Vec2;
use crate::particles::{Particles, spec_predict_pos, spec_rederived};
use crate::contacts::{Constraints, ContactRule, spec_contacts, contacts_bounded};
use crate::dual::{DualState, dual_state_of, dual_solve_spec, dual_solve};
use crate::primal::{PrimalState, primal_state_of, primal_solve_spec, primal_solve};
use crate::displacement::{spec_sweep, projection_step};

/// The constraint-solving strategy of a run, chosen once at construction.
#[derive(Clone, Copy, Debug, PartialEq, Eq, Structural)]
pub enum SolverMode {
    Dual,
    Primal,
    Projection,
}

/// Whether the dual solver treats constraints as equalities (rod-style
/// links, which may pull as well as push) or as unilateral contacts whose
/// multipliers are projected onto the non-negative half-line.
#[derive(Clone, Copy, Debug, PartialEq, Eq, Structural)]
pub enum ConstraintKind {
    Equality,
    Inequality,
}

/// The full per-run configuration; fixed for the life of the simulation.
#[derive(Clone, Copy, Debug, PartialEq, Eq, Structural)]
pub struct Config {
    pub mode: SolverMode,
    pub kind: ConstraintKind,
    pub rule: ContactRule,
    pub stiffness: i64,
    pub relaxation: i64,
    pub iterations: usize,
    pub dt: i64,
}

/// Why a configuration was rejected at construction.
#[derive(Clone, Copy, Debug, PartialEq, Eq, Structural)]
pub enum ConfigError {
    NonPositiveStiffness,
    InvalidRelaxation,
    MismatchedLengths,
    NegativeInverseMass,
    NegativeRadius,
}

/// The validation verdict for a proposed simulation: the first failing check
/// in a fixed order, or `None` when the configuration is acceptable.
pub open spec fn spec_validate(
    pos: Seq<Vec2>,
    vel: Seq<Vec2>,
    inv_mass: Seq<i64>,
    radius: Seq<i64>,
    cfg: Config,
) -> Option<ConfigError> {
    if cfg.stiffness < 1 {
        Some(ConfigError::NonPositiveStiffness)
    } else if cfg.relaxation < 1 || cfg.relaxation > SCALE {
        Some(ConfigError::InvalidRelaxation)
    } else if vel.len() != pos.len() || inv_mass.len() != pos.len() || radius.len() != pos.len() {
        Some(ConfigError::MismatchedLengths)
    } else if exists|i: int| 0 <= i < inv_mass.len() && inv_mass[i] < 0 {
        Some(ConfigError::NegativeInverseMass)
    } else if exists|i: int| 0 <= i < radius.len() && radius[i] < 0 {
        Some(ConfigError::NegativeRadius)
    } else {
        None
    }
}

/// A zero-filled scratch column of length `n`.
pub open spec fn spec_zeros(n: nat) -> Seq<i64> {
    Seq::new(n, |k: int| 0i64)
}

/// The predicted positions of a store: every position advanced by one `dt`
/// of its velocity.
pub open spec fn spec_predicted_seq(pos: Seq<Vec2>, vel: Seq<Vec2>, dt: int) -> Seq<Vec2> {
    Seq::new(pos.len(), |i: int| spec_predict_pos(pos[i], vel[i], dt))
}

/// One whole simulation instance: particle store, per-step constraint
/// arena, and the fixed configuration.
pub struct Simulation {
    pub particles: Particles,
    pub constraints: Constraints,
    pub cfg: Config,
}

/// What the dual strategy computes in one step, given the start-of-step
/// store: the solved state after the configured number of iterations, from
/// freshly generated contacts with zeroed multipliers.
pub open spec fn spec_dual_step(ps: Particles, cfg: Config) -> DualState {
    let n = ps.position@.len();
    let dt = cfg.dt as int;
    let pred = spec_predicted_seq(ps.position@, ps.velocity@, dt);
    let contacts = spec_contacts(pred, ps.radius@, cfg.rule, cfg.stiffness);
    let nc = contacts.len();
    let init = (DualState {
        vel: ps.velocity@,
        pos: pred,
        mult: spec_zeros(nc),
        grad: spec_zeros(nc),
        prec: spec_zeros(nc),
    });
    dual_solve_spec(
        init,
        contacts,
        ps.inv_mass@,
        ps.position@,
        fdiv(SCALE as int, cfg.stiffness as int),
        cfg.relaxation as int,
        dt,
        cfg.kind == ConstraintKind::Inequality,
        cfg.iterations as nat,
    )
}

/// What the primal strategy computes in one step, given the start-of-step
/// store.
pub open spec fn spec_primal_step(ps: Particles, cfg: Config) -> PrimalState {
    let dt = cfg.dt as int;
    let pred = spec_predicted_seq(ps.position@, ps.velocity@, dt);
    let contacts = spec_contacts(pred, ps.radius@, cfg.rule, cfg.stiffness);
    let init = (PrimalState { vel: ps.velocity@, pos: pred });
    primal_solve_spec(
        init,
        contacts,
        ps.inv_mass@,
        ps.position@,
        ps.velocity@,
        cfg.relaxation as int,
        dt,
        cfg.iterations as nat,
    )
}

fn copy_vecs(v: &Vec<Vec2>) -> (out: Vec<Vec2>)
    ensures
        out@ == v@,
{
    let mut out: Vec<Vec2> = Vec::new();
    let n = v.len();
    let mut i: usize = 0;
    while i < n
        invariant
            i <= n,
            n == v@.len(),
            out@.len() == i,
            forall|t: int| 0 <= t < i ==> out@[t] == v@[t],
        decreases n - i,
    {
        out.push(v[i]);
        i = i + 1;
    }
    proof {
        assert(out@ =~= v@);
    }
    out
}

impl Simulation {
    /// The particle store and arena are well-formed, and the configuration
    /// passed validation.
    pub open spec fn wf(&self) -> bool {
        &&& self.particles.wf()
        &&& self.constraints.wf()
        &&& self.cfg.stiffness >= 1
        &&& 1 <= self.cfg.relaxation <= SCALE
        &&& contacts_bounded(self.constraints.contacts@, self.particles.position@.len() as int)
    }

    /// Validate a configuration and build a simulation from the initial
    /// scenario.  Exactly the configurations `spec_validate` rejects are
    /// rejected, with that verdict; any other returns the ready simulation.
    pub fn new(
        position: Vec<Vec2>,
        velocity: Vec<Vec2>,
        inv_mass: Vec<i64>,
        radius: Vec<i64>,
        cfg: Config,
    ) -> (r: Result<Simulation, ConfigError>)
        ensures
            (match r {
                Ok(sim) => {
                    &&& spec_validate(position@, velocity@, inv_mass@, radius@, cfg) is None
                    &&& sim.wf()
                    &&& sim.cfg == cfg
                    &&& sim.particles.position@ == position@
                    &&& sim.particles.predicted@ == position@
                    &&& sim.particles.last_position@ == position@
                    &&& sim.particles.velocity@ == velocity@
                    &&& sim.particles.last_velocity@ == velocity@
                    &&& sim.particles.inv_mass@ == inv_mass@
                    &&& sim.particles.radius@ == radius@
                    &&& sim.constraints.contacts@.len() == 0
                },
                Err(e) => Some(e) == spec_validate(position@, velocity@, inv_mass@, radius@, cfg),
            }),
    {
        if cfg.stiffness < 1 {
            return Err(ConfigError::NonPositiveStiffness);
        }
        if cfg.relaxation < 1 || cfg.relaxation > SCALE {
            return Err(ConfigError::InvalidRelaxation);
        }
        let n = position.len();
        if velocity.len() != n || inv_mass.len() != n || radius.len() != n {
            return Err(ConfigError::MismatchedLengths);
        }
        let mut i: usize = 0;
        while i < n
            invariant
                i <= n,
                cfg.stiffness >= 1,
                1 <= cfg.relaxation <= SCALE,
                n == position@.len(),
                n == velocity@.len(),
                n == inv_mass@.len(),
                n == radius@.len(),
                forall|t: int| 0 <= t < i ==> inv_mass@[t] >= 0,
            decreases n - i,
        {
            if inv_mass[i] < 0 {
                proof {
                    assert(0 <= (i as int) && (i as int) < inv_mass@.len() && inv_mass@[i as int] < 0);
                }
                return Err(ConfigError::NegativeInverseMass);
            }
            i = i + 1;
        }
        let mut i: usize = 0;
        while i < n
            invariant
                i <= n,
                cfg.stiffness >= 1,
                1 <= cfg.relaxation <= SCALE,
                n == position@.len(),
                n == velocity@.len(),
                n == inv_mass@.len(),
                n == radius@.len(),
                forall|t: int| 0 <= t < n ==> inv_mass@[t] >= 0,
                forall|t: int| 0 <= t < i ==> radius@[t] >= 0,
            decreases n - i,
        {
            if radius[i] < 0 {
                proof {
                    assert(0 <= (i as int) && (i as int) < radius@.len() && radius@[i as int] < 0);
                }
                return Err(ConfigError::NegativeRadius);
            }
            i = i + 1;
        }
        let predicted = copy_vecs(&position);
        let last_position = copy_vecs(&position);
        let last_velocity = copy_vecs(&velocity);
        let particles = Particles {
            position,
            predicted,
            last_position,
            velocity,
            last_velocity,
            inv_mass,
            radius,
        };
        Ok(Simulation { particles, constraints: Constraints::new(), cfg })
    }

    /// The number of particles.
    pub fn num_particles(&self) -> (n: usize)
        ensures
            n == self.particles.position@.len(),
    {
        self.particles.len()
    }

    /// Snapshot query: the current position of particle `i`.
    pub fn position_of(&self, i: usize) -> (p: Vec2)
        requires
            i < self.particles.position@.len(),
        ensures
            p == self.particles.position@[i as int],
    {
        self.particles.position[i]
    }

    /// Snapshot query: the current velocity of particle `i`.
    pub fn velocity_of(&self, i: usize) -> (v: Vec2)
        requires
            self.particles.wf(),
            i < self.particles.position@.len(),
        ensures
            v == self.particles.velocity@[i as int],
    {
        self.particles.velocity[i]
    }

    /// Snapshot query: the radius of particle `i`.
    pub fn radius_of(&self, i: usize) -> (r: i64)
        requires
            self.particles.wf(),
            i < self.particles.position@.len(),
        ensures
            r == self.particles.radius@[i as int],
    {
        self.particles.radius[i]
    }

    /// Advance the simulation by one step with the configured strategy:
    /// snapshot and predict, regenerate the contact set, run the fixed
    /// number of solver iterations, and reconcile positions — or, for the
    /// displacement projector, advance by the persistent displacements and
    /// run its single correction sweep.
    pub fn step(&mut self)
        requires
            old(self).wf(),
        ensures
            final(self).wf(),
            final(self).cfg == old(self).cfg,
            final(self).particles.position@.len() == old(self).particles.position@.len(),
            final(self).particles.inv_mass@ == old(self).particles.inv_mass@,
            final(self).particles.radius@ == old(self).particles.radius@,
            old(self).cfg.mode == SolverMode::Dual ==> ({
                let ps0 = old(self).particles;
                let dt = old(self).cfg.dt as int;
                let pred = spec_predicted_seq(ps0.position@, ps0.velocity@, dt);
                let fin = spec_dual_step(ps0, old(self).cfg);
                &&& final(self).particles.velocity@ == fin.vel
                &&& final(self).particles.position@ == Seq::new(
                    ps0.position@.len(),
                    |i: int| spec_rederived(fin.vel[i], ps0.position@[i], dt),
                )
                &&& final(self).particles.predicted@ == pred
                &&& final(self).particles.last_position@ == ps0.position@
                &&& final(self).particles.last_velocity@ == ps0.velocity@
                &&& final(self).constraints.contacts@ == spec_contacts(
                    pred,
                    ps0.radius@,
                    old(self).cfg.rule,
                    old(self).cfg.stiffness,
                )
                &&& final(self).constraints.multiplier@ == fin.mult
            }),
            old(self).cfg.mode == SolverMode::Primal ==> ({
                let ps0 = old(self).particles;
                let dt = old(self).cfg.dt as int;
                let pred = spec_predicted_seq(ps0.position@, ps0.velocity@, dt);
                let fin = spec_primal_step(ps0, old(self).cfg);
                &&& final(self).particles.velocity@ == fin.vel
                &&& final(self).particles.position@ == Seq::new(
                    ps0.position@.len(),
                    |i: int| spec_rederived(fin.vel[i], ps0.position@[i], dt),
                )
                &&& final(self).particles.predicted@ == pred
                &&& final(self).particles.last_position@ == ps0.position@
                &&& final(self).particles.last_velocity@ == ps0.velocity@
                &&& final(self).constraints.contacts@ == spec_contacts(
                    pred,
                    ps0.radius@,
                    old(self).cfg.rule,
                    old(self).cfg.stiffness,
                )
            }),
            old(self).cfg.mode == SolverMode::Projection ==> ({
                let ps0 = old(self).particles;
                &&& final(self).particles.last_position@ == ps0.last_position@
                &&& final(self).particles.last_velocity@ == ps0.last_velocity@
                &&& (forall|k: int|
                    0 <= k < ps0.position@.len() ==> {
                        &&& final(self).particles.position@[k] == crate::vec2::spec_vadd(
                            ps0.position@[k],
                            ps0.velocity@[k],
                        )
                        &&& final(self).particles.predicted@[k] == crate::vec2::spec_vadd(
                            final(self).particles.position@[k],
                            ps0.velocity@[k],
                        )
                    })
                &&& final(self).particles.velocity@ == Seq::new(
                    ps0.velocity@.len(),
                    |k: int|
                        crate::vec2::spec_vadd(
                            ps0.velocity@[k],
                            spec_sweep(
                                final(self).particles.predicted@,
                                ps0.radius@,
                                ps0.inv_mass@,
                            )[k],
                        ),
                )
                &&& final(self).constraints.contacts@ == old(self).constraints.contacts@
            }),
    {
        let dt = self.cfg.dt;
        match self.cfg.mode {
            SolverMode::Dual => {
                let ghost ps0 = self.particles;
                self.particles.predict(dt);
                proof {
                    assert(self.particles.predicted@ =~= spec_predicted_seq(
                        ps0.position@,
                        ps0.velocity@,
                        dt as int,
                    ));
                    assert(self.particles.position@ =~= self.particles.predicted@);
                }
                proof {
                    assert(self.particles.last_position@ =~= ps0.position@);
                    assert(self.particles.last_velocity@ =~= ps0.velocity@);
                }
                self.constraints.regenerate(&self.particles, self.cfg.rule, self.cfg.stiffness);
                let compliance = div_fp(SCALE, self.cfg.stiffness);
                let unilateral = match self.cfg.kind {
                    ConstraintKind::Equality => false,
                    ConstraintKind::Inequality => true,
                };
                let ghost nc = self.constraints.contacts@.len();
                proof {
                    assert(self.constraints.multiplier@ =~= spec_zeros(nc));
                    assert(self.constraints.gradient@ =~= spec_zeros(nc));
                    assert(self.constraints.precond@ =~= spec_zeros(nc));
                    assert(dual_state_of(self.particles, self.constraints) == (DualState {
                        vel: ps0.velocity@,
                        pos: spec_predicted_seq(ps0.position@, ps0.velocity@, dt as int),
                        mult: spec_zeros(nc),
                        grad: spec_zeros(nc),
                        prec: spec_zeros(nc),
                    }));
                }
                dual_solve(
                    &mut self.particles,
                    &mut self.constraints,
                    compliance,
                    self.cfg.relaxation,
                    dt,
                    unilateral,
                    self.cfg.iterations,
                );
                proof {
                    assert(self.particles.velocity@ == spec_dual_step(ps0, self.cfg).vel);
                    assert(self.constraints.multiplier@ == spec_dual_step(ps0, self.cfg).mult);
                }
                self.particles.rederive(dt);
                proof {
                    assert(self.particles.position@ =~= Seq::new(
                        ps0.position@.len(),
                        |i: int|
                            spec_rederived(
                                spec_dual_step(ps0, self.cfg).vel[i],
                                ps0.position@[i],
                                dt as int,
                            ),
                    ));
                }
            },
            SolverMode::Primal => {
                let ghost ps0 = self.particles;
                self.particles.predict(dt);
                proof {
                    assert(self.particles.predicted@ =~= spec_predicted_seq(
                        ps0.position@,
                        ps0.velocity@,
                        dt as int,
                    ));
                    assert(self.particles.position@ =~= self.particles.predicted@);
                }
                proof {
                    assert(self.particles.last_position@ =~= ps0.position@);
                    assert(self.particles.last_velocity@ =~= ps0.velocity@);
                }
                self.constraints.regenerate(&self.particles, self.cfg.rule, self.cfg.stiffness);
                proof {
                    assert(primal_state_of(self.particles) == (PrimalState {
                        vel: ps0.velocity@,
                        pos: spec_predicted_seq(ps0.position@, ps0.velocity@, dt as int),
                    }));
                }
                primal_solve(
                    &mut self.particles,
                    &self.constraints,
                    self.cfg.relaxation,
                    dt,
                    self.cfg.iterations,
                );
                proof {
                    assert(self.particles.velocity@ == spec_primal_step(ps0, self.cfg).vel);
                }
                self.particles.rederive(dt);
                proof {
                    assert(self.particles.position@ =~= Seq::new(
                        ps0.position@.len(),
                        |i: int|
                            spec_rederived(
                                spec_primal_step(ps0, self.cfg).vel[i],
                                ps0.position@[i],
                                dt as int,
                            ),
                    ));
                }
            },
            SolverMode::Projection => {
                projection_step(&mut self.particles);
            },
        }
    }
}

} // verus!
