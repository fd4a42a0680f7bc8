//! Vehicle assembly: the parameter set of one car and how every physical
//! constant is derived from a few tunable values.

use vstd::prelude::*;
use crate::drive::{Brake, DriveType, DrivenWheelLookup, strictly_increasing};
use crate::fixed::{clamp64, floor_sqrt, fx_add, fx_sub, isqrt, lemma_mul_le, Vector, SCALE};
use crate::suspension::{
    suspension_for_load, suspension_for_load_spec, SteeringCurvature, SteeringType,
    SuspensionComponent, lemma_suspension_at_rest, suspension_force, MAX_GRAVITY, MAX_MASS,
};

verus! {

/// Gravitational acceleration on Earth, 9.81 m/s^2.
pub const GRAVITY: i64 = 9_810_000;

/// Mass of one suspension carrier, 20 kg.
pub const SUSPENSION_MASS: i64 = 20_000_000;

/// Moment of inertia of a suspension carrier: a 25 mm sphere of 20 kg.
pub const SUSPENSION_MOI: i64 = 8_333;

/// Mass of one wheel, 20 kg.
pub const WHEEL_MASS: i64 = 20_000_000;

/// Wheel radius, 0.325 m.
pub const WHEEL_RADIUS: i64 = 325_000;

/// Wheel moment of inertia about its spin axis, mass times radius squared.
pub const WHEEL_MOI_SPIN: i64 = 2_112_500;

/// Wheel moment of inertia about the other two axes.
pub const WHEEL_MOI_TRAMP: i64 = 264_062;

/// A corner of the car.
#[derive(Clone, Copy, Debug, PartialEq, Eq, Structural)]
pub enum Corner {
    FrontLeft,
    FrontRight,
    RearLeft,
    RearRight,
}

/// Which keys drive a car.
#[derive(Clone, Copy, Debug, PartialEq, Eq, Structural)]
pub enum ControlType {
    WASD,
    Arrow,
}

/// Driver input of one car: throttle and brake in `[0, SCALE]`, steering in
/// `[-SCALE, SCALE]`. The straight-ahead model of `dynamics` reads throttle
/// and brake only.
#[derive(Clone, Copy, Debug, PartialEq, Eq, Structural)]
pub struct CarControl {
    pub throttle: i64,
    pub steering: i64,
    pub brake: i64,
    pub control_type: ControlType,
}

/// The chassis body and where it starts.
#[derive(Clone, Copy, Debug, PartialEq, Eq, Structural)]
pub struct Chassis {
    pub mass: i64,
    pub cg_position: Vector,
    pub moi: Vector,
    pub dimensions: Vector,
    pub position: Vector,
    pub initial_position: Vector,
    pub initial_orientation: Vector,
    pub index: i32,
}

/// One suspension corner.
#[derive(Clone, Copy, Debug, PartialEq, Eq, Structural)]
pub struct Suspension {
    pub corner: Corner,
    pub mass: i64,
    pub steering: SteeringType,
    pub stiffness: i64,
    pub damping: i64,
    pub preload: i64,
    pub moi: i64,
    pub location: Vector,
}

/// The wheel and tire, shared by the four corners.
#[derive(Clone, Copy, Debug, PartialEq, Eq, Structural)]
pub struct Wheel {
    pub mass: i64,
    pub radius: i64,
    pub width: i64,
    pub moi_y: i64,
    pub moi_xz: i64,
    pub vertical_stiffness: i64,
    pub lateral_stiffness: i64,
    pub damping: i64,
    pub coefficient_of_friction: i64,
    pub rolling_radius: i64,
    pub low_speed: i64,
    pub normalized_slip_stiffness: i64,
    pub filter_time: i64,
    pub contact_samples: u32,
    pub sample_spacing: i64,
}

/// Everything needed to instantiate one car.
#[derive(Clone, Debug)]
pub struct CarDefinition {
    pub chassis: Chassis,
    pub suspension: Vec<Suspension>,
    pub wheel: Wheel,
    pub drives: Vec<DriveType>,
    pub brake: Brake,
    pub carcontrol: CarControl,
    pub id: i32,
    /// Gravity the suspension and tires were sized for, and the car drives under.
    pub gravity: i64,
}

impl CarDefinition {
    /// Four corners, valid drive tables, positive masses within range,
    /// positive wheel inertia, low-speed threshold and filter time.
    pub open spec fn wf(&self) -> bool {
        &&& self.suspension@.len() == 4
        &&& self.drives@.len() == 4
        &&& forall|i: int| 0 <= i < 4 ==> (#[trigger] self.drives@[i]).wf()
        &&& forall|i: int| 0 <= i < 4 ==> 0 < (#[trigger] self.suspension@[i]).mass <= MAX_MASS
        &&& 0 < self.chassis.mass <= MAX_MASS
        &&& 0 < self.wheel.mass <= MAX_MASS
        &&& self.wheel.moi_y > 0
        &&& self.wheel.low_speed > 0
        &&& self.wheel.filter_time > 0
        &&& self.wheel.contact_samples > 0
        &&& self.brake.front_torque >= 0
        &&& self.brake.rear_torque >= 0
    }
}

/// Tire stiffness that lets a corner sink 5 mm under its load.
pub open spec fn wheel_stiffness(chassis_mass: int, gravity: int) -> int {
    (chassis_mass / 4 + SUSPENSION_MASS + WHEEL_MASS) * gravity * 200 / (SCALE as int)
}

/// The wheel that `build_wheel` derives.
pub open spec fn wheel_spec(chassis_mass: int, gravity: int, friction: int) -> Wheel {
    let k = wheel_stiffness(chassis_mass, gravity);
    Wheel {
        mass: WHEEL_MASS,
        radius: WHEEL_RADIUS,
        width: 200_000,
        moi_y: WHEEL_MOI_SPIN,
        moi_xz: WHEEL_MOI_TRAMP,
        vertical_stiffness: k as i64,
        lateral_stiffness: 0,
        damping: (floor_sqrt(k * WHEEL_MASS) / 50) as i64,
        coefficient_of_friction: friction as i64,
        rolling_radius: 315_000,
        low_speed: 1_000_000,
        normalized_slip_stiffness: 20_000_000,
        filter_time: 5_000,
        contact_samples: 5,
        sample_spacing: 10_000,
    }
}

/// Builds the wheel for a chassis of `chassis_mass` under `gravity`:
/// vertical stiffness from the corner's load and a 5 mm target deflection,
/// damping at one percent of critical.
pub fn build_wheel(chassis_mass: i64, gravity: i64, friction_coefficient: i64) -> (r: Wheel)
    requires
        0 <= chassis_mass <= MAX_MASS,
        0 < gravity <= MAX_GRAVITY,
    ensures
        r == wheel_spec(chassis_mass as int, gravity as int, friction_coefficient as int),
{
    let corner_mass: i128 = (chassis_mass / 4) as i128 + SUSPENSION_MASS as i128 + WHEEL_MASS as i128;
    proof {
        lemma_mul_le(corner_mass as int, gravity as int, 250_040_000_000_000, MAX_GRAVITY as int);
    }
    let stiffness: i128 = corner_mass * (gravity as i128) * 200 / (SCALE as i128);
    assert(0 <= stiffness <= 5_000_800_000_000_000_000) by (nonlinear_arith)
        requires
            stiffness == corner_mass * gravity * 200 / 1_000_000,
            0 <= corner_mass * gravity <= 250_040_000_000_000 * 100_000_000,
    ;
    proof {
        lemma_mul_le(stiffness as int, WHEEL_MASS as int, 5_000_800_000_000_000_000, WHEEL_MASS as int);
    }
    let root = isqrt((stiffness as u128) * (WHEEL_MASS as u128));
    Wheel {
        mass: WHEEL_MASS,
        radius: WHEEL_RADIUS,
        width: 200_000,
        moi_y: WHEEL_MOI_SPIN,
        moi_xz: WHEEL_MOI_TRAMP,
        vertical_stiffness: stiffness as i64,
        lateral_stiffness: 0,
        damping: (root / 50) as i64,
        coefficient_of_friction: friction_coefficient,
        rolling_radius: 315_000,
        low_speed: 1_000_000,
        normalized_slip_stiffness: 20_000_000,
        filter_time: 5_000,
        contact_samples: 5,
        sample_spacing: 10_000,
    }
}

/// Where the four suspensions are mounted on the chassis, in corner order.
pub open spec fn mount_location(i: int) -> Vector {
    if i == 0 {
        Vector { x: 1_570_000, y: 750_000, z: -200_000i64 }
    } else if i == 1 {
        Vector { x: 1_570_000, y: -750_000i64, z: -200_000i64 }
    } else if i == 2 {
        Vector { x: -1_310_000i64, y: 750_000, z: -200_000i64 }
    } else {
        Vector { x: -1_310_000i64, y: -750_000i64, z: -200_000i64 }
    }
}

/// The corner with index `i`: front left, front right, rear left, rear right.
pub open spec fn corner_of(i: int) -> Corner {
    if i == 0 {
        Corner::FrontLeft
    } else if i == 1 {
        Corner::FrontRight
    } else if i == 2 {
        Corner::RearLeft
    } else {
        Corner::RearRight
    }
}

/// Front corners steer along a path curvature of at most 1/5 per metre,
/// rear corners do not steer.
pub open spec fn steering_of(i: int) -> SteeringType {
    if i < 2 {
        SteeringType::Curvature(
            SteeringCurvature {
                x: (mount_location(i).x - mount_location(i + 2).x) as i64,
                y: mount_location(i).y,
                max_curvature: 200_000,
            },
        )
    } else {
        SteeringType::NoSteering
    }
}

/// Suspension corner `i` with constants `c`.
pub open spec fn suspension_spec(i: int, c: SuspensionComponent) -> Suspension {
    Suspension {
        corner: corner_of(i),
        mass: SUSPENSION_MASS,
        steering: steering_of(i),
        stiffness: c.stiffness,
        damping: c.damping,
        preload: c.preload,
        moi: SUSPENSION_MOI,
        location: mount_location(i),
    }
}

/// Speed breakpoints of the drive curve: 0, a quarter, half and all of `max_speed`.
pub open spec fn drive_speeds(max_speed: int) -> Seq<i64> {
    seq![0i64, (max_speed / 4) as i64, (max_speed / 2) as i64, max_speed as i64]
}

/// Torques of the drive curve: all of `max_torque` up to a quarter of top
/// speed, 60 percent at half, 25 percent at top speed.
pub open spec fn drive_torques(max_torque: int) -> Seq<i64> {
    seq![max_torque as i64, max_torque as i64, (max_torque * 6 / 10) as i64, (max_torque / 4) as i64]
}

/// The chassis that `build_car` derives.
pub open spec fn chassis_spec(start: Vector, id: i32, mass: int) -> Chassis {
    Chassis {
        mass: mass as i64,
        cg_position: Vector { x: 0, y: 0, z: 0 },
        moi: Vector {
            x: (mass * 1_600_000 / 12_000_000) as i64,
            y: (mass * 9_160_000 / 12_000_000) as i64,
            z: (mass * 10_440_000 / 12_000_000) as i64,
        },
        dimensions: Vector { x: 3_000_000, y: 1_200_000, z: 400_000 },
        position: start,
        initial_position: Vector {
            x: clamp64(start.x - 5_000_000) as i64,
            y: clamp64(start.y + 20_000_000) as i64,
            z: clamp64(start.z + 550_000) as i64,
        },
        initial_orientation: Vector { x: 0, y: 0, z: 0 },
        index: id,
    }
}

/// `d` is the car that `build_car` derives from these parameters.
pub open spec fn is_built_car(
    d: CarDefinition,
    start: Vector,
    control_type: ControlType,
    id: i32,
    max_speed: int,
    chassis_mass: int,
    max_torque: int,
    friction: int,
    gravity: int,
) -> bool {
    let c = suspension_for_load_spec(chassis_mass, gravity);
    &&& d.chassis == chassis_spec(start, id, chassis_mass)
    &&& d.suspension@ == seq![
        suspension_spec(0, c),
        suspension_spec(1, c),
        suspension_spec(2, c),
        suspension_spec(3, c),
    ]
    &&& d.wheel == wheel_spec(chassis_mass, gravity, friction)
    &&& d.drives@.len() == 4
    &&& d.drives@[0] is Undriven
    &&& d.drives@[1] is Undriven
    &&& forall|i: int|
        2 <= i < 4 ==> match #[trigger] d.drives@[i] {
            DriveType::DrivenWheelLookup(l) => {
                &&& l.wheel == Corner::FrontLeft
                &&& l.speeds@ == drive_speeds(max_speed)
                &&& l.torques@ == drive_torques(max_torque)
            },
            _ => false,
        }
    &&& d.brake == (Brake { front_torque: 800_000_000, rear_torque: 400_000_000 })
    &&& d.carcontrol == (CarControl { throttle: 0, steering: 0, brake: 0, control_type })
    &&& d.id == id
    &&& d.gravity == gravity
}

fn corner_suspension(i: usize, c: SuspensionComponent) -> (r: Suspension)
    requires
        i < 4,
    ensures
        r == suspension_spec(i as int, c),
{
    let (corner, location) = if i == 0 {
        (Corner::FrontLeft, Vector::new(1_570_000, 750_000, -200_000))
    } else if i == 1 {
        (Corner::FrontRight, Vector::new(1_570_000, -750_000, -200_000))
    } else if i == 2 {
        (Corner::RearLeft, Vector::new(-1_310_000, 750_000, -200_000))
    } else {
        (Corner::RearRight, Vector::new(-1_310_000, -750_000, -200_000))
    };
    let steering = if i < 2 {
        SteeringType::Curvature(SteeringCurvature { x: 2_880_000, y: location.y, max_curvature: 200_000 })
    } else {
        SteeringType::NoSteering
    };
    Suspension {
        corner,
        mass: SUSPENSION_MASS,
        steering,
        stiffness: c.stiffness,
        damping: c.damping,
        preload: c.preload,
        moi: SUSPENSION_MOI,
        location,
    }
}

fn rear_drive(max_speed: i64, max_torque: i64) -> (r: DriveType)
    requires
        4 <= max_speed,
        0 <= max_torque,
    ensures
        r matches DriveType::DrivenWheelLookup(l) && l.wf() && l.wheel == Corner::FrontLeft
            && l.speeds@ == drive_speeds(max_speed as int) && l.torques@ == drive_torques(
            max_torque as int,
        ),
{
    let speeds: Vec<i64> = vec![0, max_speed / 4, max_speed / 2, max_speed];
    let middle_torque: i64 = ((max_torque as i128) * 6 / 10) as i64;
    let torques: Vec<i64> = vec![max_torque, max_torque, middle_torque, max_torque / 4];
    assert(speeds@ =~= drive_speeds(max_speed as int));
    assert(torques@ =~= drive_torques(max_torque as int));
    assert(strictly_increasing(speeds@));
    DriveType::DrivenWheelLookup(DrivenWheelLookup::new(Corner::FrontLeft, speeds, torques))
}

/// Derives a complete car from its start position, control scheme, id and
/// five tunable values: top speed, chassis mass, peak torque, tire friction
/// and the gravity it will drive under. The car faces along `+x`, the
/// direction of its `px` joint.
pub fn build_car(
    startposition: Vector,
    control_type: ControlType,
    id: i32,
    max_speed: i64,
    chassis_mass: i64,
    max_torque: i64,
    friction_coefficient: i64,
    gravity: i64,
) -> (r: CarDefinition)
    requires
        4 <= max_speed,
        0 < chassis_mass <= MAX_MASS,
        0 <= max_torque,
        0 < gravity <= MAX_GRAVITY,
    ensures
        r.wf(),
        is_built_car(
            r,
            startposition,
            control_type,
            id,
            max_speed as int,
            chassis_mass as int,
            max_torque as int,
            friction_coefficient as int,
            gravity as int,
        ),
{
    let mass = chassis_mass;
    let chassis = Chassis {
        mass,
        cg_position: Vector::new(0, 0, 0),
        moi: Vector::new(
            ((mass as i128) * 1_600_000 / 12_000_000) as i64,
            ((mass as i128) * 9_160_000 / 12_000_000) as i64,
            ((mass as i128) * 10_440_000 / 12_000_000) as i64,
        ),
        dimensions: Vector::new(3_000_000, 1_200_000, 400_000),
        position: startposition,
        initial_position: Vector::new(
            fx_sub(startposition.x, 5_000_000),
            fx_add(startposition.y, 20_000_000),
            fx_add(startposition.z, 550_000),
        ),
        initial_orientation: Vector::new(0, 0, 0),
        index: id,
    };

    let c = suspension_for_load(mass, gravity);
    let mut suspension: Vec<Suspension> = Vec::new();
    let mut i: usize = 0;
    while i < 4
        invariant
            i <= 4,
            suspension@.len() == i,
            forall|j: int| 0 <= j < i ==> #[trigger] suspension@[j] == suspension_spec(j, c),
        decreases 4 - i,
    {
        suspension.push(corner_suspension(i, c));
        i = i + 1;
    }
    assert(suspension@ =~= seq![
        suspension_spec(0, c),
        suspension_spec(1, c),
        suspension_spec(2, c),
        suspension_spec(3, c),
    ]);

    let wheel = build_wheel(chassis_mass, gravity, friction_coefficient);

    let mut drives: Vec<DriveType> = Vec::new();
    drives.push(DriveType::Undriven);
    drives.push(DriveType::Undriven);
    drives.push(rear_drive(max_speed, max_torque));
    drives.push(rear_drive(max_speed, max_torque));

    let brake = Brake { front_torque: 800_000_000, rear_torque: 400_000_000 };
    let carcontrol = CarControl { throttle: 0, steering: 0, brake: 0, control_type };
    let r = CarDefinition { chassis, suspension, wheel, drives, brake, carcontrol, id, gravity };
    assert forall|i: int| 0 <= i < 4 implies (#[trigger] r.drives@[i]).wf() by {}
    r
}

/// Every corner of a built car carries a quarter of the chassis weight under
/// the gravity it was built for: its preload is `chassis_mass * gravity / 4`,
/// and its suspension force at zero extension and zero rate is that preload.
pub proof fn lemma_built_car_carries_its_weight(
    d: CarDefinition,
    start: Vector,
    control_type: ControlType,
    id: i32,
    max_speed: int,
    chassis_mass: int,
    max_torque: int,
    friction: int,
    gravity: int,
)
    requires
        0 < chassis_mass <= MAX_MASS,
        0 < gravity <= MAX_GRAVITY,
        is_built_car(d, start, control_type, id, max_speed, chassis_mass, max_torque, friction, gravity),
    ensures
        d.gravity == gravity,
        forall|i: int|
            0 <= i < 4 ==> {
                let s = #[trigger] d.suspension@[i];
                &&& s.preload == chassis_mass * gravity / (4 * SCALE)
                &&& suspension_force(s.stiffness as int, s.damping as int, s.preload as int, 0, 0) == s.preload
            },
{
    lemma_suspension_at_rest(chassis_mass, gravity);
    assert forall|i: int| 0 <= i < 4 implies {
        let s = #[trigger] d.suspension@[i];
        &&& s.preload == chassis_mass * gravity / (4 * SCALE)
        &&& suspension_force(s.stiffness as int, s.damping as int, s.preload as int, 0, 0) == s.preload
    } by {
        let c = suspension_for_load_spec(chassis_mass, gravity);
        assert(d.suspension@[i] == suspension_spec(i, c));
    }
}

/// Building a car twice from the same parameters gives the same derived
/// constants: suspension, wheel, chassis and drive tables.
pub proof fn lemma_build_is_deterministic(
    d1: CarDefinition,
    d2: CarDefinition,
    start: Vector,
    control_type: ControlType,
    id: i32,
    max_speed: int,
    chassis_mass: int,
    max_torque: int,
    friction: int,
    gravity: int,
)
    requires
        is_built_car(d1, start, control_type, id, max_speed, chassis_mass, max_torque, friction, gravity),
        is_built_car(d2, start, control_type, id, max_speed, chassis_mass, max_torque, friction, gravity),
    ensures
        d1.chassis == d2.chassis,
        d1.suspension@ == d2.suspension@,
        d1.wheel == d2.wheel,
        d1.brake == d2.brake,
        d1.carcontrol == d2.carcontrol,
        d1.id == d2.id,
        d1.gravity == d2.gravity,
        d1.drives@.len() == d2.drives@.len(),
        forall|i: int|
            0 <= i < d1.drives@.len() ==> match (#[trigger] d1.drives@[i], d2.drives@[i]) {
                (DriveType::Undriven, DriveType::Undriven) => true,
                (DriveType::DrivenWheelLookup(a), DriveType::DrivenWheelLookup(b)) => {
                    &&& a.wheel == b.wheel
                    &&& a.speeds@ == b.speeds@
                    &&& a.torques@ == b.torques@
                },
                _ => false,
            },
{
    assert forall|i: int| 0 <= i < d1.drives@.len() implies match (#[trigger] d1.drives@[i], d2.drives@[i]) {
        (DriveType::Undriven, DriveType::Undriven) => true,
        (DriveType::DrivenWheelLookup(a), DriveType::DrivenWheelLookup(b)) => {
            &&& a.wheel == b.wheel
            &&& a.speeds@ == b.speeds@
            &&& a.torques@ == b.torques@
        },
        _ => false,
    } by {
        if i >= 2 {
            assert(d2.drives@[i] is DrivenWheelLookup);
        }
    }
}

/// The values a player picks for the cars of a session.
#[derive(Clone, Copy, Debug, PartialEq, Eq, Structural)]
pub struct CarPreferences {
    pub mass: i64,
    pub gravity: i64,
    pub max_speed: i64,
    pub max_torque: i64,
    pub friction_coefficient: i64,
}

impl Default for CarPreferences {
    /// A 1000 kg car under Earth gravity, top speed 75, peak torque 1000 N m,
    /// tire friction 1.
    fn default() -> (r: Self)
        ensures
            r == (CarPreferences {
                mass: 1_000_000_000,
                gravity: GRAVITY,
                max_speed: 75_000_000,
                max_torque: 1_000_000_000,
                friction_coefficient: 1_000_000,
            }),
    {
        CarPreferences {
            mass: 1_000_000_000,
            gravity: GRAVITY,
            max_speed: 75_000_000,
            max_torque: 1_000_000_000,
            friction_coefficient: 1_000_000,
        }
    }
}

} // verus!
