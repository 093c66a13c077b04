use relax2d::contacts::ContactRule;
use relax2d::fp::SCALE;
use relax2d::sim::{Config, ConstraintKind, Simulation, SolverMode};
use relax2d::vec2::{dist_fp, Vec2};

const MILLI: i64 = SCALE / 1_000;

fn projection_config() -> Config {
    Config {
        mode: SolverMode::Projection,
        kind: ConstraintKind::Inequality,
        rule: ContactRule::RadiusSum,
        stiffness: 10_000 * SCALE,
        relaxation: SCALE,
        iterations: 1,
        dt: SCALE,
    }
}

// Three particles: an immovable radius-0.5 one at the origin, a movable
// radius-0.5 one at (1, 0) with inverse mass 1, and a movable radius-1.0
// one at (10, 0) with inverse mass 0.01 and inbound displacement (-0.1, 0).
fn scenario_b(heavy_x: i64) -> Simulation {
    let half = SCALE / 2;
    let pos = vec![
        Vec2 { x: 0, y: 0 },
        Vec2 { x: SCALE, y: 0 },
        Vec2 { x: heavy_x, y: 0 },
    ];
    let vel = vec![
        Vec2 { x: 0, y: 0 },
        Vec2 { x: 0, y: 0 },
        Vec2 { x: -SCALE / 10, y: 0 },
    ];
    let inv_mass = vec![0, SCALE, SCALE / 100];
    let radius = vec![half, half, SCALE];
    Simulation::new(pos, vel, inv_mass, radius, projection_config()).unwrap()
}

// One step of the exact scenario: the inbound particle is still 8.8 away
// from anything it could touch, so no pair overlaps; the immovable particle
// never moves, and every pair ends no closer than the sum of its radii
// minus 1e-3.
#[test]
fn scenario_b_one_step_keeps_separation() {
    let mut sim = scenario_b(10 * SCALE);
    sim.step();
    assert_eq!(sim.position_of(0), Vec2 { x: 0, y: 0 });
    assert_eq!(sim.velocity_of(0), Vec2 { x: 0, y: 0 });
    // The inbound particle advanced by its displacement.
    assert_eq!(sim.position_of(2), Vec2 { x: 9_900_000, y: 0 });
    for i in 0..3 {
        for j in (i + 1)..3 {
            let d = dist_fp(sim.position_of(i), sim.position_of(j));
            let rr = sim.radius_of(i) + sim.radius_of(j);
            assert!(d >= rr - MILLI, "pair ({i},{j}) too close: {d} < {rr}");
        }
    }
}

// The same scenario with the inbound particle adjacent, so its first step
// overlaps the middle one: its accumulated displacement along the approach
// axis shrinks relative to the unconstrained -0.1, while the immovable
// particle still accumulates nothing.
#[test]
fn scenario_b_contact_reduces_inbound_displacement() {
    let mut sim = scenario_b(2 * SCALE + SCALE / 5);
    sim.step();
    // Advanced by one displacement: 2.2 - 0.1 = 2.1.
    assert_eq!(sim.position_of(2).x, 2_100_000);
    // Predicted positions 2.0 and 1.0 overlap the radius sum 1.5 by 0.5;
    // the heavy side's share is 0.01 / 1.01 of that, pushing back along +x.
    let v2 = sim.velocity_of(2);
    assert!(
        v2.x > -SCALE / 10 && v2.x < 0,
        "inbound displacement not reduced: {}",
        v2.x
    );
    assert_eq!(v2.x, -100_000 + 4_950);
    // The light middle particle takes the rest of the correction.
    let v1 = sim.velocity_of(1);
    assert!(v1.x < 0);
    // The immovable particle accumulates no displacement at all.
    assert_eq!(sim.velocity_of(0), Vec2 { x: 0, y: 0 });
    assert_eq!(sim.position_of(0), Vec2 { x: 0, y: 0 });
}

// Jacobi discipline: the sweep reads predicted positions committed before
// any correction, so processing order cannot leak into the result; the two
// symmetric neighbours of a middle particle receive exactly opposite
// corrections and the middle one none.
#[test]
fn projection_sweep_is_order_independent_for_a_symmetric_row() {
    let half = SCALE / 2;
    let pos = vec![
        Vec2 { x: -900_000, y: 0 },
        Vec2 { x: 0, y: 0 },
        Vec2 { x: 900_000, y: 0 },
    ];
    let vel = vec![Vec2 { x: 0, y: 0 }, Vec2 { x: 0, y: 0 }, Vec2 { x: 0, y: 0 }];
    let inv_mass = vec![SCALE, SCALE, SCALE];
    let radius = vec![half, half, half];
    let mut sim = Simulation::new(pos, vel, inv_mass, radius, projection_config()).unwrap();
    sim.step();
    let v0 = sim.velocity_of(0);
    let v1 = sim.velocity_of(1);
    let v2 = sim.velocity_of(2);
    assert_eq!(v0.x, -v2.x, "outer corrections not symmetric");
    assert!(v0.x < 0 && v2.x > 0);
    assert_eq!(v1.x, 0, "middle particle should cancel out");
}

// An overlapping pair with one immovable side: the whole correction goes to
// the movable particle.
#[test]
fn projection_pushes_only_the_movable_side() {
    let half = SCALE / 2;
    let pos = vec![Vec2 { x: 0, y: 0 }, Vec2 { x: 800_000, y: 0 }];
    let vel = vec![Vec2 { x: 0, y: 0 }, Vec2 { x: 0, y: 0 }];
    let inv_mass = vec![0, SCALE];
    let radius = vec![half, half];
    let mut sim = Simulation::new(pos, vel, inv_mass, radius, projection_config()).unwrap();
    sim.step();
    assert_eq!(sim.velocity_of(0), Vec2 { x: 0, y: 0 });
    // Normal points from the movable particle toward the immovable one
    // (-x), and the movable one is corrected opposite to it (+x).
    assert!(sim.velocity_of(1).x > 0);
}
