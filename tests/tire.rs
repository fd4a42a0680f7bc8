use car_physics::dynamics::{Dynamics, STATE_LEN};
use car_physics::fixed::{Vector, SCALE};
use car_physics::terrain::{GridElement, GridTerrain, Mirror, Rotate, Step};
use car_physics::vehicle::{build_car, CarControl, ControlType, GRAVITY};

fn model() -> Dynamics {
    let car = build_car(Vector::new(0, 0, 0), ControlType::WASD, 0, 75 * SCALE, 1000 * SCALE, 1000 * SCALE, SCALE, GRAVITY);
    Dynamics::new(&car, 2_000)
}

fn flat() -> GridTerrain {
    GridTerrain::new(Vec::new(), [10 * SCALE, 10 * SCALE])
}

/// Chassis at 0.5 m moving forward at 2 m/s and down at 0.1 m/s; the front
/// left suspension extended 1 mm and extending at 5 cm/s, its wheel spinning
/// at 6.5 rad/s with a filtered tire force of 100 N.
fn state() -> Vec<i64> {
    let mut y = vec![0; STATE_LEN];
    y[0] = -5 * SCALE;
    y[1] = 2 * SCALE;
    y[2] = 500_000;
    y[3] = -100_000;
    y[4] = 1_000;
    y[5] = 50_000;
    y[7] = 6_500_000;
    y[8] = 100 * SCALE;
    y[18] = 100 * SCALE;
    y
}

#[test]
fn spring_force_of_a_corner() {
    assert_eq!(model().corner_spring_force(&state(), 0), 2_366_071_598);
}

#[test]
fn tire_normal_force_from_penetration_and_approach_speed() {
    let d = model();
    // Contact point 16 mm below the ground, wheel falling at 0.15 m/s.
    assert_eq!(d.corner_normal_force(&flat(), &state(), 0), 9_113_800_098);
    // A wheel above the ground carries nothing.
    let mut high = state();
    high[2] = 600_000;
    assert_eq!(d.corner_normal_force(&flat(), &high, 0), 0);
}

#[test]
fn traction_follows_slip_and_saturates() {
    let d = model();
    let y = state();
    // Tread at 2.0475 m/s over ground at 2 m/s: slip 0.02375, 0.475 of the
    // friction limit.
    assert_eq!(d.corner_traction_target(&y, 0, 9_113_800_098), 4_329_055_046);
    let mut spinning = y.clone();
    spinning[7] = 20 * SCALE;
    assert_eq!(d.corner_traction_target(&spinning, 0, 9_113_800_098), 9_113_800_098);
    let mut locked = y.clone();
    locked[7] = 0;
    assert_eq!(d.corner_traction_target(&locked, 0, 9_113_800_098), -9_113_800_098);
}

#[test]
fn driven_wheel_accelerates_from_table_torque() {
    let d = model();
    let control = CarControl { throttle: SCALE / 2, steering: 0, brake: 0, control_type: ControlType::WASD };
    // Rear left: 500 N m from the table at the front left wheel's speed,
    // less 31.5 N m of tire reaction, over 2.1125 kg m^2.
    assert_eq!(d.corner_drive_torque(&control, &state(), 2), 500 * SCALE);
    assert_eq!(d.corner_wheel_acceleration(&control, &state(), 2), 221_775_147);
    // The front wheels are not driven.
    assert_eq!(d.corner_drive_torque(&control, &state(), 0), 0);
}

#[test]
fn derivative_of_the_state() {
    let d = model();
    let control = CarControl { throttle: 0, steering: 0, brake: 0, control_type: ControlType::WASD };
    let r = d.derivative(&flat(), &control, &state());
    assert_eq!(r.len(), STATE_LEN);
    assert_eq!(r[0], 2 * SCALE);
    assert_eq!(r[2], -100_000);
    assert_eq!(r[4], 50_000);
    assert_eq!(r[6], 6_500_000);
    // Two tire forces of 100 N over 1160 kg.
    assert_eq!(r[1], 172_413);
}

#[test]
fn one_tick_at_rest_on_the_ground_barely_moves() {
    let d = model();
    let control = CarControl { throttle: 0, steering: 0, brake: 0, control_type: ControlType::WASD };
    let mut y = vec![0; STATE_LEN];
    // Static ride height: tires deflected 5 mm, springs at zero extension.
    y[2] = 510_000;
    let next = d.rk4_step(&flat(), &control, &y);
    for j in 0..STATE_LEN {
        assert!((next[j] - y[j]).abs() <= 10, "entry {} moved from {} to {}", j, y[j], next[j]);
    }
}

#[test]
fn contact_samples_average_over_the_patch() {
    let d = model();
    assert_eq!(d.wheel.contact_samples, 5);
    // A 30 m step rising 10 mm at x = 15 m; the front left wheel centred on
    // the edge puts three of its five samples, 1 cm apart, on the high side.
    let step = Step { size: 30 * SCALE, height: 10_000, mirror: Mirror::NoMirror, rotate: Rotate::Zero };
    let t = GridTerrain::new(vec![vec![GridElement::Step(step)]], [30 * SCALE, 30 * SCALE]);
    let mut y = state();
    y[0] = 15 * SCALE - 1_570_000;
    assert_eq!(d.corner_sample_force(&t, &y, 0, 0), 9_113_800_098);
    assert_eq!(d.corner_sample_force(&t, &y, 0, 1), 9_113_800_098);
    assert_eq!(d.corner_sample_force(&t, &y, 0, 2), 14_803_600_098);
    assert_eq!(d.corner_sample_force(&t, &y, 0, 4), 14_803_600_098);
    assert_eq!(d.corner_normal_force(&t, &y, 0), 12_527_680_098);
}
