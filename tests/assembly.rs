use car_physics::drive::DriveType;
use car_physics::fixed::{Vector, SCALE};
use car_physics::suspension::{suspension_for_load, SteeringCurvature, SteeringType, Steering, SuspensionComponent};
use car_physics::vehicle::{build_car, build_wheel, CarDefinition, CarPreferences, ControlType, Corner, GRAVITY};

fn demo(start: Vector) -> CarDefinition {
    build_car(start, ControlType::Arrow, 1, 75 * SCALE, 1000 * SCALE, 1000 * SCALE, SCALE, GRAVITY)
}

#[test]
fn preload_carries_a_quarter_of_the_chassis() {
    let s = suspension_for_load(1000 * SCALE, GRAVITY);
    assert_eq!(s.preload, 2_452_500_000);
    assert_eq!(s.stiffness, 24_525_000_000);
    assert_eq!(s.damping, 1_238_068_051);
    assert_eq!(s.force(0, 0), s.preload);
}

#[test]
fn preload_for_other_masses_and_gravities() {
    for &(m, g) in &[(1, 1), (4 * SCALE, SCALE), (1500 * SCALE, 1_620_000), (123_456_789, 24_790_000)] {
        let s = suspension_for_load(m, g);
        assert_eq!(s.preload as i128, (m as i128 * g as i128) / (4 * SCALE as i128));
        assert_eq!(s.force(0, 0), s.preload);
    }
}

#[test]
fn suspension_force_is_spring_damper_plus_preload() {
    let s = SuspensionComponent::new(24_525_000_000, 1_238_068_051, 2_452_500_000);
    // 1 cm of extension: 245.25 N less.
    assert_eq!(s.force(10_000, 0), 2_452_500_000 - 245_250_000);
    // 0.1 m/s of extension rate: 123.8068051 N less, rounded toward zero.
    assert_eq!(s.force(0, 100_000), 2_452_500_000 - 123_806_805);
    // Compression pushes harder.
    assert_eq!(s.force(-10_000, 0), 2_452_500_000 + 245_250_000);
    // Saturates rather than overflowing.
    assert_eq!(s.force(i64::MIN, 0), i64::MAX);
}

#[test]
fn wheel_constants_follow_the_chassis_mass() {
    let w = build_wheel(1000 * SCALE, GRAVITY, 900_000);
    assert_eq!(w.vertical_stiffness, 568_980_000_000);
    assert_eq!(w.damping, 67_467_325);
    assert_eq!(w.coefficient_of_friction, 900_000);
    assert_eq!(w.mass, 20 * SCALE);
    assert_eq!(w.rolling_radius, 315_000);
    assert_eq!(w.moi_y, 2_112_500);
    assert_eq!(w.contact_samples, 5);
    assert_eq!(w.sample_spacing, 10_000);
    let heavier = build_wheel(2000 * SCALE, GRAVITY, 900_000);
    assert!(heavier.vertical_stiffness > w.vertical_stiffness);
}

#[test]
fn built_car_has_derived_constants() {
    let car = demo(Vector::new(4 * SCALE, 0, 0));
    assert_eq!(car.id, 1);
    assert_eq!(car.chassis.mass, 1000 * SCALE);
    assert_eq!(car.chassis.initial_position, Vector::new(-SCALE, 20 * SCALE, 550_000));
    assert_eq!(car.chassis.initial_orientation, Vector::new(0, 0, 0));
    assert_eq!(car.gravity, GRAVITY);
    assert_eq!(car.chassis.moi, Vector::new(133_333_333, 763_333_333, 870_000_000));
    assert_eq!(car.suspension.len(), 4);
    let corners: Vec<Corner> = car.suspension.iter().map(|s| s.corner).collect();
    assert_eq!(corners, vec![Corner::FrontLeft, Corner::FrontRight, Corner::RearLeft, Corner::RearRight]);
    for s in &car.suspension {
        assert_eq!(s.preload, 2_452_500_000);
        assert_eq!(s.stiffness, 24_525_000_000);
    }
    assert_eq!(
        car.suspension[1].steering,
        SteeringType::Curvature(SteeringCurvature { x: 2_880_000, y: -750_000, max_curvature: 200_000 })
    );
    assert_eq!(car.suspension[3].steering, SteeringType::NoSteering);
    assert_eq!(car.carcontrol.control_type, ControlType::Arrow);
    assert_eq!(car.carcontrol.throttle, 0);
    assert_eq!(car.brake.front_torque, 800 * SCALE);
    assert_eq!(car.brake.rear_torque, 400 * SCALE);
    assert!(matches!(car.drives[0], DriveType::Undriven));
    assert!(matches!(car.drives[1], DriveType::Undriven));
    for d in &car.drives[2..] {
        match d {
            DriveType::DrivenWheelLookup(l) => {
                assert_eq!(l.wheel, Corner::FrontLeft);
                assert_eq!(l.speeds, vec![0, 18_750_000, 37_500_000, 75_000_000]);
                assert_eq!(l.torques, vec![1_000_000_000, 1_000_000_000, 600_000_000, 250_000_000]);
            }
            _ => panic!("rear wheels are driven"),
        }
    }
}

#[test]
fn building_twice_gives_the_same_car() {
    let a = demo(Vector::new(1, 2, 3));
    let b = demo(Vector::new(1, 2, 3));
    assert_eq!(a.chassis, b.chassis);
    assert_eq!(a.suspension, b.suspension);
    assert_eq!(a.wheel, b.wheel);
    assert_eq!(a.carcontrol, b.carcontrol);
    for (x, y) in a.drives.iter().zip(b.drives.iter()) {
        match (x, y) {
            (DriveType::Undriven, DriveType::Undriven) => {}
            (DriveType::DrivenWheelLookup(p), DriveType::DrivenWheelLookup(q)) => {
                assert_eq!(p.speeds, q.speeds);
                assert_eq!(p.torques, q.torques);
            }
            _ => panic!("drives differ"),
        }
    }
}

#[test]
fn steering_by_angle_and_by_curvature() {
    let s = Steering { max_angle: 523_598 };
    assert_eq!(s.angle(SCALE), 523_598);
    assert_eq!(s.angle(-SCALE / 2), -261_799);
    let left = SteeringCurvature { x: 2_880_000, y: 750_000, max_curvature: 200_000 };
    let right = SteeringCurvature { x: 2_880_000, y: -750_000, max_curvature: 200_000 };
    // Full left: the inner (left) wheel turns more than the outer one.
    assert_eq!(left.steer_tangent(SCALE), Some(677_647));
    assert_eq!(right.steer_tangent(SCALE), Some(500_869));
    assert_eq!(left.steer_tangent(0), Some(0));
    let tight = SteeringCurvature { x: 2_880_000, y: 750_000, max_curvature: 2_000_000 };
    assert_eq!(tight.steer_tangent(SCALE), None);
}

#[test]
fn default_preferences() {
    let p = CarPreferences::default();
    assert_eq!(p.mass, 1000 * SCALE);
    assert_eq!(p.gravity, 9_810_000);
    assert_eq!(p.max_speed, 75 * SCALE);
    assert_eq!(p.max_torque, 1000 * SCALE);
    assert_eq!(p.friction_coefficient, SCALE);
}

#[test]
fn preload_follows_the_build_gravity() {
    let moon = 1_620_000;
    let car = build_car(Vector::new(0, 0, 0), ControlType::WASD, 0, 75 * SCALE, 1000 * SCALE, 1000 * SCALE, SCALE, moon);
    for s in &car.suspension {
        assert_eq!(s.preload, 405_000_000);
        assert_eq!(s.stiffness, 4_050_000_000);
        assert_eq!(SuspensionComponent::new(s.stiffness, s.damping, s.preload).force(0, 0), 405_000_000);
    }
    // Tire stiffness: 290 kg under 1.62 m/s^2 sinks 5 mm.
    assert_eq!(car.wheel.vertical_stiffness, 93_960_000_000);
}

#[test]
fn start_positions_near_the_limits_saturate() {
    let car = demo(Vector::new(i64::MIN, i64::MAX, i64::MAX));
    assert_eq!(car.chassis.initial_position, Vector::new(i64::MIN, i64::MAX, i64::MAX));
    let again = demo(Vector::new(i64::MIN, i64::MAX, i64::MAX));
    assert_eq!(car.chassis, again.chassis);
}
