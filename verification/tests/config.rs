use relax2d::contacts::ContactRule;
use relax2d::fp::SCALE;
use relax2d::sim::{Config, ConfigError, ConstraintKind, Simulation, SolverMode};
use relax2d::vec2::Vec2;

fn base_config() -> Config {
    Config {
        mode: SolverMode::Dual,
        kind: ConstraintKind::Inequality,
        rule: ContactRule::Fixed(SCALE),
        stiffness: 10_000 * SCALE,
        relaxation: SCALE / 10,
        iterations: 100,
        dt: SCALE,
    }
}

fn two_particles() -> (Vec<Vec2>, Vec<Vec2>, Vec<i64>, Vec<i64>) {
    let pos = vec![Vec2 { x: 0, y: 0 }, Vec2 { x: 800_000, y: 0 }];
    let vel = vec![Vec2 { x: 0, y: 0 }, Vec2 { x: 0, y: 0 }];
    let inv_mass = vec![SCALE, SCALE];
    let radius = vec![0, 0];
    (pos, vel, inv_mass, radius)
}

#[test]
fn valid_configuration_is_accepted() {
    let (pos, vel, w, r) = two_particles();
    let sim = Simulation::new(pos, vel, w, r, base_config());
    assert!(sim.is_ok());
}

#[test]
fn zero_stiffness_is_rejected() {
    let (pos, vel, w, r) = two_particles();
    let cfg = Config { stiffness: 0, ..base_config() };
    assert_eq!(
        Simulation::new(pos, vel, w, r, cfg).err(),
        Some(ConfigError::NonPositiveStiffness)
    );
}

#[test]
fn negative_stiffness_is_rejected() {
    let (pos, vel, w, r) = two_particles();
    let cfg = Config { stiffness: -SCALE, ..base_config() };
    assert_eq!(
        Simulation::new(pos, vel, w, r, cfg).err(),
        Some(ConfigError::NonPositiveStiffness)
    );
}

#[test]
fn zero_relaxation_is_rejected() {
    let (pos, vel, w, r) = two_particles();
    let cfg = Config { relaxation: 0, ..base_config() };
    assert_eq!(
        Simulation::new(pos, vel, w, r, cfg).err(),
        Some(ConfigError::InvalidRelaxation)
    );
}

#[test]
fn relaxation_above_one_is_rejected() {
    let (pos, vel, w, r) = two_particles();
    let cfg = Config { relaxation: SCALE + 1, ..base_config() };
    assert_eq!(
        Simulation::new(pos, vel, w, r, cfg).err(),
        Some(ConfigError::InvalidRelaxation)
    );
}

#[test]
fn mismatched_lengths_are_rejected() {
    let (pos, vel, w, _) = two_particles();
    let r = vec![0];
    assert_eq!(
        Simulation::new(pos, vel, w, r, base_config()).err(),
        Some(ConfigError::MismatchedLengths)
    );
}

#[test]
fn negative_inverse_mass_is_rejected() {
    let (pos, vel, _, r) = two_particles();
    let w = vec![SCALE, -1];
    assert_eq!(
        Simulation::new(pos, vel, w, r, base_config()).err(),
        Some(ConfigError::NegativeInverseMass)
    );
}

#[test]
fn negative_radius_is_rejected() {
    let (pos, vel, w, _) = two_particles();
    let r = vec![0, -1];
    assert_eq!(
        Simulation::new(pos, vel, w, r, base_config()).err(),
        Some(ConfigError::NegativeRadius)
    );
}

#[test]
fn construction_keeps_the_scenario() {
    let (pos, vel, w, r) = two_particles();
    let sim = Simulation::new(pos, vel, w, r, base_config()).unwrap();
    assert_eq!(sim.num_particles(), 2);
    assert_eq!(sim.position_of(1), Vec2 { x: 800_000, y: 0 });
    assert_eq!(sim.velocity_of(0), Vec2 { x: 0, y: 0 });
    assert_eq!(sim.radius_of(0), 0);
}
