use car_physics::fixed::{Vector, SCALE};
use car_physics::integrator::SimTime;
use car_physics::simulation::Simulation;
use car_physics::terrain::GridTerrain;
use car_physics::vehicle::{build_car, ControlType, GRAVITY};

fn demo_car() -> Simulation {
    let car = build_car(
        Vector::new(0, 0, 0),
        ControlType::WASD,
        0,
        75 * SCALE,
        1000 * SCALE,
        1000 * SCALE,
        SCALE,
        GRAVITY,
    );
    let terrain = GridTerrain::new(Vec::new(), [160 * SCALE, 160 * SCALE]);
    Simulation::new(&car, terrain, SimTime::new(2_000, 0, None))
}

fn assert_finite(sim: &Simulation) {
    for v in sim.state.iter() {
        assert!(*v > i64::MIN / 2 && *v < i64::MAX / 2, "state diverged: {:?}", sim.state);
    }
}

#[test]
fn full_throttle_drives_forward_without_diverging() {
    let mut sim = demo_car();
    let start = sim.chassis_position();
    sim.set_control(SCALE, 0, 0);
    sim.run(500);
    assert_finite(&sim);
    let end = sim.chassis_position();
    println!("start {:?} end {:?} speed {} wheels {:?}", start, end, sim.forward_speed(),
        (0..4).map(|i| sim.wheel_speed(i)).collect::<Vec<_>>());
    assert!(end.x > start.x + SCALE);
    assert!(sim.forward_speed() > 0);
    for i in 0..4 {
        assert!(sim.wheel_speed(i) <= 75 * SCALE);
        assert!(sim.wheel_speed(i) >= 0);
    }
    assert_eq!(sim.time.time, 1_000_000);
    // The car faces along +x: the forward motion is all along x.
    assert_eq!(car_heading_yaw(), 0);
    assert_eq!(end.y, start.y);
}

fn car_heading_yaw() -> i64 {
    build_car(Vector::new(0, 0, 0), ControlType::WASD, 0, 75 * SCALE, 1000 * SCALE, 1000 * SCALE, SCALE, GRAVITY)
        .chassis
        .initial_orientation
        .z
}

#[test]
fn car_at_rest_settles_to_ride_height() {
    let mut sim = demo_car();
    sim.set_control(0, 0, 0);
    sim.run(500);
    assert_finite(&sim);
    let z = sim.chassis_position().z;
    println!("z {} vz {} q {:?}", z, sim.vertical_speed(), (0..4).map(|i| sim.suspension_extension(i)).collect::<Vec<_>>());
    // Static ride height: mount 0.2 m above the wheel centre, rolling radius
    // 0.315 m, tire deflection 5 mm.
    assert!((z - 510_000).abs() < 5_000);
    let z1 = z;
    sim.run(500);
    let z2 = sim.chassis_position().z;
    assert!((z2 - 510_000).abs() <= (z1 - 510_000).abs() + 500);
    assert!(sim.vertical_speed().abs() < 10_000);
    assert!(sim.forward_speed().abs() < 1_000);
}

#[test]
fn running_equals_stepping() {
    let mut a = demo_car();
    let mut b = demo_car();
    a.set_control(SCALE, 0, 0);
    b.set_control(SCALE, 0, 0);
    a.run(7);
    for _ in 0..7 {
        b.step();
    }
    assert_eq!(a.state, b.state);
    assert_eq!(a.time, b.time);
    assert_eq!(a.time.time, 14_000);
}

#[test]
fn braking_stops_wheels_without_reversing_them() {
    let mut sim = demo_car();
    sim.set_control(SCALE, 0, 0);
    sim.run(500);
    assert!(sim.forward_speed() > 4 * SCALE);
    sim.set_control(0, 0, SCALE);
    for _ in 0..1500 {
        sim.step();
        for i in 0..4 {
            assert!(sim.wheel_speed(i) >= 0, "wheel {} reversed: {}", i, sim.wheel_speed(i));
        }
    }
    assert_finite(&sim);
    assert!(sim.forward_speed().abs() < 100_000, "still moving at {}", sim.forward_speed());
}

#[test]
fn run_keeps_the_clock() {
    let car = build_car(Vector::new(0, 0, 0), ControlType::WASD, 0, 75 * SCALE, 1000 * SCALE, 1000 * SCALE, SCALE, GRAVITY);
    let terrain = GridTerrain::new(Vec::new(), [160 * SCALE, 160 * SCALE]);
    let mut sim = Simulation::new(&car, terrain, SimTime::new(2_000, 0, Some(10_000)));
    sim.run(4);
    assert_eq!(sim.time, SimTime::new(2_000, 8_000, Some(10_000)));
    assert!(!sim.time.is_complete());
    sim.run(1);
    assert!(sim.time.is_complete());
}

#[test]
fn car_at_rest_under_moon_gravity_settles_too() {
    let moon = 1_620_000;
    let car = build_car(Vector::new(0, 0, 0), ControlType::WASD, 0, 75 * SCALE, 1000 * SCALE, 1000 * SCALE, SCALE, moon);
    assert_eq!(car.gravity, moon);
    assert_eq!(car.suspension[0].preload, 405_000_000);
    let terrain = GridTerrain::new(Vec::new(), [160 * SCALE, 160 * SCALE]);
    let mut sim = Simulation::new(&car, terrain, SimTime::new(2_000, 0, None));
    assert_eq!(sim.dynamics.gravity, moon);
    sim.run(1500);
    assert_finite(&sim);
    // Same ride height: springs at zero extension, tires 5 mm deflected.
    let z = sim.chassis_position().z;
    assert!((z - 510_000).abs() < 5_000, "z {}", z);
    for i in 0..4 {
        assert!(sim.suspension_extension(i).abs() < 5_000);
    }
}
