use relax2d::contacts::ContactRule;
use relax2d::fp::SCALE;
use relax2d::sim::{Config, ConstraintKind, Simulation, SolverMode};
use relax2d::vec2::{dist_fp, Vec2};

const MILLI: i64 = SCALE / 1_000;

fn contact_config(mode: SolverMode, kind: ConstraintKind, iterations: usize) -> Config {
    Config {
        mode,
        kind,
        rule: ContactRule::Fixed(SCALE),
        stiffness: 10_000 * SCALE,
        relaxation: SCALE / 10,
        iterations,
        dt: SCALE,
    }
}

fn overlapping_pair(mode: SolverMode, kind: ConstraintKind, iterations: usize) -> Simulation {
    let pos = vec![Vec2 { x: 0, y: 0 }, Vec2 { x: 800_000, y: 0 }];
    let vel = vec![Vec2 { x: 0, y: 0 }, Vec2 { x: 0, y: 0 }];
    let inv_mass = vec![SCALE, SCALE];
    let radius = vec![0, 0];
    Simulation::new(pos, vel, inv_mass, radius, contact_config(mode, kind, iterations)).unwrap()
}

// Two unit-mass particles penetrating a rest distance of 1.0 by 0.2, contact
// stiffness 10000, dual solver with the non-negativity clamp, relaxation
// 0.1, 100 iterations: they end at least 1.0 - 1e-3 apart, having pushed.
#[test]
fn scenario_a_dual_contact_resolves() {
    let mut sim = overlapping_pair(SolverMode::Dual, ConstraintKind::Inequality, 100);
    sim.step();
    let d = dist_fp(sim.position_of(0), sim.position_of(1));
    assert!(d >= SCALE - MILLI, "final distance {d} too small");
    assert_eq!(sim.constraints.len(), 1);
    assert!(sim.constraints.multiplier[0] > 0, "contact never pushed");
}

// In inequality mode every multiplier stays non-negative.
#[test]
fn dual_multipliers_never_negative() {
    let mut sim = overlapping_pair(SolverMode::Dual, ConstraintKind::Inequality, 100);
    sim.step();
    for k in 0..sim.constraints.len() {
        assert!(sim.constraints.multiplier[k] >= 0);
    }
}

// An equality constraint with rest length 1.0 between two unit-mass movable
// particles converges: after enough iterations |distance - 1.0| < 1e-3.
#[test]
fn equality_constraint_reaches_rest_length() {
    let mut sim = overlapping_pair(SolverMode::Dual, ConstraintKind::Equality, 400);
    sim.step();
    let d = dist_fp(sim.position_of(0), sim.position_of(1));
    assert!((d - SCALE).abs() < MILLI, "distance {d} not at rest length");
}

// Momentum conservation: two finite, equal unit masses interacting only
// through one contact keep their summed momentum to within fixed-point
// tolerance (one quantum per applied impulse).
#[test]
fn momentum_is_conserved_by_the_dual_solver() {
    let mut sim = overlapping_pair(SolverMode::Dual, ConstraintKind::Inequality, 100);
    sim.step();
    let v0 = sim.velocity_of(0);
    let v1 = sim.velocity_of(1);
    assert!((v0.x + v1.x).abs() < MILLI, "momentum drifted: {} {}", v0.x, v1.x);
    assert!((v0.y + v1.y).abs() < MILLI);
    assert!(v0.x < 0 && v1.x > 0, "particles did not push apart");
}

// Immovability: a particle with inverse mass 0 has position and velocity
// unchanged by the dual solver, whatever contacts touch it.
#[test]
fn dual_solver_never_moves_an_immovable_particle() {
    let pos = vec![Vec2 { x: 0, y: 0 }, Vec2 { x: 800_000, y: 0 }];
    let vel = vec![Vec2 { x: 0, y: 0 }, Vec2 { x: 0, y: 0 }];
    let inv_mass = vec![0, SCALE];
    let radius = vec![0, 0];
    let cfg = contact_config(SolverMode::Dual, ConstraintKind::Inequality, 100);
    let mut sim = Simulation::new(pos, vel, inv_mass, radius, cfg).unwrap();
    sim.step();
    assert_eq!(sim.position_of(0), Vec2 { x: 0, y: 0 });
    assert_eq!(sim.velocity_of(0), Vec2 { x: 0, y: 0 });
    // The movable particle did all the separating.
    let d = dist_fp(sim.position_of(0), sim.position_of(1));
    assert!(d >= SCALE - MILLI);
    assert!(sim.position_of(1).x >= SCALE - MILLI);
}

#[test]
fn primal_solver_never_moves_an_immovable_particle() {
    let pos = vec![Vec2 { x: 0, y: 0 }, Vec2 { x: 800_000, y: 0 }];
    let vel = vec![Vec2 { x: 0, y: 0 }, Vec2 { x: 0, y: 0 }];
    let inv_mass = vec![0, SCALE];
    let radius = vec![0, 0];
    let cfg = contact_config(SolverMode::Primal, ConstraintKind::Inequality, 200);
    let mut sim = Simulation::new(pos, vel, inv_mass, radius, cfg).unwrap();
    sim.step();
    assert_eq!(sim.position_of(0), Vec2 { x: 0, y: 0 });
    assert_eq!(sim.velocity_of(0), Vec2 { x: 0, y: 0 });
}

// Cross-solver equivalence: on the same configuration, contact set, and
// stiffness, the dual and primal solvers converge to the same final
// positions within 1e-2.
#[test]
fn dual_and_primal_agree_on_the_same_scenario() {
    let mut dual = overlapping_pair(SolverMode::Dual, ConstraintKind::Inequality, 400);
    let mut primal = overlapping_pair(SolverMode::Primal, ConstraintKind::Inequality, 400);
    dual.step();
    primal.step();
    let centi = SCALE / 100;
    for i in 0..2 {
        let pd = dual.position_of(i);
        let pp = primal.position_of(i);
        assert!(
            (pd.x - pp.x).abs() < centi && (pd.y - pp.y).abs() < centi,
            "solvers disagree at particle {i}: dual ({}, {}) primal ({}, {})",
            pd.x,
            pd.y,
            pp.x,
            pp.y
        );
    }
}

// The primal solver resolves the overlap on its own as well.
#[test]
fn primal_contact_resolves() {
    let mut sim = overlapping_pair(SolverMode::Primal, ConstraintKind::Inequality, 400);
    sim.step();
    let d = dist_fp(sim.position_of(0), sim.position_of(1));
    assert!(d >= SCALE - 10 * MILLI, "final distance {d} too small");
}

// Degenerate geometry: two exactly coincident particles get the documented
// fixed fallback normal (the first axis) and separate deterministically.
#[test]
fn coincident_particles_use_the_fallback_normal() {
    let pos = vec![Vec2 { x: 0, y: 0 }, Vec2 { x: 0, y: 0 }];
    let vel = vec![Vec2 { x: 0, y: 0 }, Vec2 { x: 0, y: 0 }];
    let inv_mass = vec![SCALE, SCALE];
    let radius = vec![0, 0];
    let cfg = contact_config(SolverMode::Dual, ConstraintKind::Inequality, 100);
    let mut sim = Simulation::new(pos, vel, inv_mass, radius, cfg).unwrap();
    sim.step();
    // The fallback normal points along +x for the lower-index particle.
    assert!(sim.velocity_of(0).x > 0);
    assert!(sim.velocity_of(1).x < 0);
    assert_eq!(sim.velocity_of(0).y, 0);
    assert_eq!(sim.velocity_of(1).y, 0);
}

// The contact arena is rebuilt from scratch each step: once the pair has
// separated past the threshold, the next step emits no contacts and no
// multiplier persists.
#[test]
fn contacts_do_not_persist_across_steps() {
    let mut sim = overlapping_pair(SolverMode::Dual, ConstraintKind::Inequality, 100);
    sim.step();
    assert_eq!(sim.constraints.len(), 1);
    // Move the pair far apart and step again.
    sim.particles.position[1] = Vec2 { x: 10 * SCALE, y: 0 };
    sim.particles.velocity[0] = Vec2 { x: 0, y: 0 };
    sim.particles.velocity[1] = Vec2 { x: 0, y: 0 };
    sim.step();
    assert_eq!(sim.constraints.len(), 0);
}

// Edge cases: an empty store and a single free particle. With no pairs
// there are no contacts, and a step is pure semi-implicit Euler: the
// position advances by exactly one velocity.
#[test]
fn empty_and_single_particle_steps() {
    let cfg = contact_config(SolverMode::Dual, ConstraintKind::Inequality, 10);
    let mut empty = Simulation::new(vec![], vec![], vec![], vec![], cfg).unwrap();
    empty.step();
    assert_eq!(empty.num_particles(), 0);
    assert_eq!(empty.constraints.len(), 0);

    let pos = vec![Vec2 { x: 0, y: 0 }];
    let vel = vec![Vec2 { x: SCALE / 10, y: 0 }];
    let mut single = Simulation::new(pos, vel, vec![SCALE], vec![0], cfg).unwrap();
    single.step();
    assert_eq!(single.position_of(0), Vec2 { x: SCALE / 10, y: 0 });
    assert_eq!(single.velocity_of(0), Vec2 { x: SCALE / 10, y: 0 });
    single.step();
    assert_eq!(single.position_of(0), Vec2 { x: 2 * (SCALE / 10), y: 0 });
}
