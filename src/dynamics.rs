//! Equations of motion of one car driving straight ahead.
//!
//! The chassis moves along its `px` and `pz` joints. Each corner has a
//! suspension joint, whose coordinate is the extension of the spring beyond
//! its static length, and a wheel joint spinning about `ry`. A filtered tire
//! force per corner is the last state. With `M` the chassis mass, `m` the
//! mass of a corner, `f` the suspension forces and `N` the tire normal
//! forces, the generalized accelerations are
//!   z''   = sum(f) / M - g
//!   q_i'' = sum(f) / M + (f_i - N_i) / m
//!   x''   = sum(F_i) / (M + 4 m)
//!   w_i'' = (drive_i + brake_i - r F_i) / I
//!   F_i'  = (target_i - F_i) / filter_time.
//! The model is reduced to straight-ahead driving: the chassis keeps its
//! heading along the `px` axis and has no yaw, pitch, roll or lateral degree
//! of freedom. The steering input and the steering joints therefore do not
//! enter these equations, and the tire has longitudinal slip only. A
//! corner's steer angle can be resolved on its own with `Steering::angle` or
//! `SteeringCurvature::steer_tangent`. Each tire touches the
//! terrain at a row of samples along the car, and its normal force is their
//! mean; its friction force tends to the normal force times the friction
//! coefficient, shaped by the slip and saturating at full slip.

use vstd::prelude::*;
use crate::drive::{brake_torque_spec, table_torque, BrakeWheel, DriveType};
use crate::fixed::{
    clamp64, div_spec, div_trunc, fx_div, fx_mul, i128_div_trunc, lemma_div_trunc_bounds, lemma_mul_le,
    mul_spec, saturate, Vector, SCALE,
};
use crate::suspension::{suspension_force, SuspensionComponent};
use crate::terrain::{terrain_interference, GridTerrain};
use crate::vehicle::{CarControl, Corner, Wheel};

verus! {

/// Number of state entries: four for the chassis, five per corner.
pub const STATE_LEN: usize = 24;

/// Index of entry `k` of corner `i` in the state: suspension extension (0)
/// and its rate (1), wheel angle (2) and spin rate (3), filtered tire force (4).
pub open spec fn sidx(i: int, k: int) -> int {
    4 + 5 * i + k
}

/// Index of a corner in the state.
pub open spec fn corner_index(c: Corner) -> int {
    match c {
        Corner::FrontLeft => 0,
        Corner::FrontRight => 1,
        Corner::RearLeft => 2,
        Corner::RearRight => 3,
    }
}

/// What one corner needs to compute its forces.
#[derive(Clone, Debug)]
pub struct CornerModel {
    pub location: Vector,
    pub suspension: SuspensionComponent,
    pub drive: DriveType,
    pub brake: BrakeWheel,
}

/// The constants of the equations of motion of one car.
#[derive(Clone, Debug)]
pub struct Dynamics {
    pub chassis_mass: i64,
    pub corner_mass: i64,
    pub total_mass: i64,
    pub gravity: i64,
    pub lateral: i64,
    pub wheel: Wheel,
    pub corners: Vec<CornerModel>,
    pub dt: i64,
}

/// Offset along the car of contact sample `k` of `n`, `spacing` apart and
/// centred under the wheel.
pub open spec fn sample_offset(n: int, spacing: int, k: int) -> int {
    div_trunc((2 * k - (n - 1)) * spacing, 2)
}

/// Driver input within its bounds.
pub open spec fn control_ok(c: CarControl) -> bool {
    &&& 0 <= c.throttle <= SCALE
    &&& 0 <= c.brake <= SCALE
}

/// `|v|`, no smaller than `floor`.
pub open spec fn speed_floor(v: int, floor: int) -> int {
    let a = if v >= 0 { v } else { -v };
    clamp64(if a >= floor { a } else { floor })
}

/// `v` held to `[-SCALE, SCALE]`.
pub open spec fn unit_clamp(v: int) -> int {
    if v < -SCALE {
        -SCALE
    } else if v > SCALE {
        SCALE as int
    } else {
        v
    }
}

impl Dynamics {
    pub open spec fn wf(&self) -> bool {
        &&& self.corners@.len() == 4
        &&& self.chassis_mass > 0
        &&& self.corner_mass > 0
        &&& self.total_mass > 0
        &&& self.wheel.moi_y > 0
        &&& self.wheel.low_speed > 0
        &&& self.wheel.filter_time > 0
        &&& self.wheel.contact_samples > 0
        &&& self.dt > 0
        &&& forall|i: int|
            0 <= i < 4 ==> {
                &&& (#[trigger] self.corners@[i]).drive.wf()
                &&& self.corners@[i].brake.max_torque >= 0
            }
    }

    /// Suspension force of corner `i`.
    pub open spec fn spring_force(&self, y: Seq<i64>, i: int) -> int {
        let s = self.corners@[i].suspension;
        suspension_force(s.stiffness as int, s.damping as int, s.preload as int, y[sidx(i, 0)] as int, y[sidx(i, 1)] as int)
    }

    /// Contact sample `k` of corner `i`: below the wheel centre by the rolling
    /// radius, moved along the car by the sample's offset in the patch.
    pub open spec fn contact_point(&self, y: Seq<i64>, i: int, k: int) -> Vector {
        let loc = self.corners@[i].location;
        let offset = sample_offset(self.wheel.contact_samples as int, self.wheel.sample_spacing as int, k);
        Vector {
            x: clamp64(y[0] + loc.x + offset) as i64,
            y: clamp64(self.lateral + loc.y) as i64,
            z: clamp64(y[2] + loc.z - y[sidx(i, 0)] - self.wheel.rolling_radius) as i64,
        }
    }

    /// Vertical speed of the wheel of corner `i`.
    pub open spec fn wheel_vertical_speed(&self, y: Seq<i64>, i: int) -> int {
        clamp64(y[3] - y[sidx(i, 1)])
    }

    /// Force at contact sample `k` of corner `i`: a spring and damper on the
    /// penetration, never pulling.
    pub open spec fn sample_force(&self, t: GridTerrain, y: Seq<i64>, i: int, k: int) -> int {
        match terrain_interference(t.rows(), t.step[0] as int, t.step[1] as int, self.contact_point(y, i, k)) {
            Some(it) => {
                let n = clamp64(
                    mul_spec(self.wheel.vertical_stiffness as int, it.magnitude as int) - mul_spec(
                        self.wheel.damping as int,
                        self.wheel_vertical_speed(y, i),
                    ),
                );
                if n > 0 {
                    n
                } else {
                    0
                }
            },
            None => 0,
        }
    }

    /// Sum of the forces at the first `n` contact samples of corner `i`.
    pub open spec fn sample_sum(&self, t: GridTerrain, y: Seq<i64>, i: int, n: nat) -> int
        decreases n,
    {
        if n == 0 {
            0
        } else {
            self.sample_sum(t, y, i, (n - 1) as nat) + self.sample_force(t, y, i, n - 1)
        }
    }

    /// Normal force of the tire of corner `i`: the mean of the forces at its
    /// contact samples.
    pub open spec fn normal_force(&self, t: GridTerrain, y: Seq<i64>, i: int) -> int {
        self.sample_sum(t, y, i, self.wheel.contact_samples as nat) / (self.wheel.contact_samples as int)
    }

    /// Longitudinal slip of the tire of corner `i`: the difference of the
    /// tread speed and the ground speed, over the ground speed but no less
    /// than the low-speed threshold.
    pub open spec fn slip(&self, y: Seq<i64>, i: int) -> int {
        div_spec(
            clamp64(mul_spec(y[sidx(i, 3)] as int, self.wheel.rolling_radius as int) - y[1]),
            speed_floor(y[1] as int, self.wheel.low_speed as int),
        )
    }

    /// Friction force the tire of corner `i` tends to: the normal force times
    /// the friction coefficient, scaled by the slip stiffness curve.
    pub open spec fn traction_target(&self, t: GridTerrain, y: Seq<i64>, i: int) -> int {
        mul_spec(
            mul_spec(self.wheel.coefficient_of_friction as int, self.normal_force(t, y, i)),
            unit_clamp(mul_spec(self.wheel.normalized_slip_stiffness as int, self.slip(y, i))),
        )
    }

    /// Drive torque on the wheel of corner `i`, scaled by throttle.
    pub open spec fn drive_torque(&self, c: CarControl, y: Seq<i64>, i: int) -> int {
        match self.corners@[i].drive {
            DriveType::Undriven => 0,
            DriveType::DrivenWheelLookup(l) => mul_spec(
                c.throttle as int,
                table_torque(l.speeds@, l.torques@, y[sidx(corner_index(l.wheel), 3)] as int),
            ),
            DriveType::DrivenWheel(w) => mul_spec(c.throttle as int, w.max_torque as int),
        }
    }

    /// Brake torque on the wheel of corner `i`.
    pub open spec fn brake_torque(&self, c: CarControl, y: Seq<i64>, i: int) -> int {
        brake_torque_spec(
            y[sidx(i, 3)] as int,
            c.brake as int,
            self.corners@[i].brake.max_torque as int,
            self.wheel.moi_y as int,
            self.dt as int,
        )
    }

    /// Spin acceleration of the wheel of corner `i`.
    pub open spec fn wheel_acceleration(&self, c: CarControl, y: Seq<i64>, i: int) -> int {
        div_spec(
            clamp64(
                self.drive_torque(c, y, i) + self.brake_torque(c, y, i) - mul_spec(
                    self.wheel.rolling_radius as int,
                    y[sidx(i, 4)] as int,
                ),
            ),
            self.wheel.moi_y as int,
        )
    }

    /// Rate of the first-order filter on the tire force of corner `i`.
    pub open spec fn filter_rate(&self, t: GridTerrain, y: Seq<i64>, i: int) -> int {
        div_spec(clamp64(self.traction_target(t, y, i) - y[sidx(i, 4)]), self.wheel.filter_time as int)
    }
}

fn slot(c: Corner) -> (r: usize)
    ensures
        r == corner_index(c),
        r < 4,
{
    match c {
        Corner::FrontLeft => 0,
        Corner::FrontRight => 1,
        Corner::RearLeft => 2,
        Corner::RearRight => 3,
    }
}

impl Dynamics {
    /// Suspension force of corner `i`.
    pub fn corner_spring_force(&self, y: &Vec<i64>, i: usize) -> (r: i64)
        requires
            self.wf(),
            y@.len() == STATE_LEN,
            i < 4,
        ensures
            r == self.spring_force(y@, i as int),
    {
        let b = 4 + 5 * i;
        self.corners[i].suspension.force(y[b], y[b + 1])
    }

    /// Force at contact sample `k` of corner `i` on terrain `t`.
    pub fn corner_sample_force(&self, t: &GridTerrain, y: &Vec<i64>, i: usize, k: u32) -> (r: i64)
        requires
            self.wf(),
            t.wf(),
            y@.len() == STATE_LEN,
            i < 4,
        ensures
            r == self.sample_force(*t, y@, i as int, k as int),
            r >= 0,
    {
        let b = 4 + 5 * i;
        let loc = self.corners[i].location;
        let n = self.wheel.contact_samples as i128;
        proof {
            lemma_mul_le(
                if 2 * k - (n - 1) >= 0 { 2 * k - (n - 1) } else { -(2 * k - (n - 1)) },
                if self.wheel.sample_spacing >= 0 { self.wheel.sample_spacing as int } else { -self.wheel.sample_spacing },
                0x2_0000_0000,
                0x8000_0000_0000_0000,
            );
            assert(-0x1_0000_0000_0000_0000_0000_0000 <= (2 * k - (n - 1)) * self.wheel.sample_spacing
                <= 0x1_0000_0000_0000_0000_0000_0000) by (nonlinear_arith)
                requires
                    0 <= (if 2 * k - (n - 1) >= 0 { 2 * k - (n - 1) } else { -(2 * k - (n - 1)) })
                        * (if self.wheel.sample_spacing >= 0 { self.wheel.sample_spacing as int } else { -self.wheel.sample_spacing })
                        <= 0x2_0000_0000 * 0x8000_0000_0000_0000,
            ;
            lemma_div_trunc_bounds((2 * k - (n - 1)) * self.wheel.sample_spacing, 2);
        }
        let offset = i128_div_trunc((2 * (k as i128) - (n - 1)) * (self.wheel.sample_spacing as i128), 2);
        let point = Vector::new(
            saturate(y[0] as i128 + loc.x as i128 + offset),
            saturate(self.lateral as i128 + loc.y as i128),
            saturate(y[2] as i128 + loc.z as i128 - y[b] as i128 - self.wheel.rolling_radius as i128),
        );
        assert(point == self.contact_point(y@, i as int, k as int));
        match t.interference(point) {
            Some(it) => {
                let v = saturate(y[3] as i128 - y[b + 1] as i128);
                let spring = fx_mul(self.wheel.vertical_stiffness, it.magnitude);
                let damper = fx_mul(self.wheel.damping, v);
                let n = saturate(spring as i128 - damper as i128);
                if n > 0 {
                    n
                } else {
                    0
                }
            },
            None => 0,
        }
    }

    /// Normal force of the tire of corner `i` on terrain `t`.
    pub fn corner_normal_force(&self, t: &GridTerrain, y: &Vec<i64>, i: usize) -> (r: i64)
        requires
            self.wf(),
            t.wf(),
            y@.len() == STATE_LEN,
            i < 4,
        ensures
            r == self.normal_force(*t, y@, i as int),
            r >= 0,
    {
        let n = self.wheel.contact_samples;
        let mut sum: i128 = 0;
        let mut k: u32 = 0;
        while k < n
            invariant
                self.wf(),
                t.wf(),
                y@.len() == STATE_LEN,
                i < 4,
                n == self.wheel.contact_samples,
                k <= n,
                sum == self.sample_sum(*t, y@, i as int, k as nat),
                0 <= sum <= k * 0x7fff_ffff_ffff_ffff,
            decreases n - k,
        {
            let f = self.corner_sample_force(t, y, i, k);
            sum = sum + f as i128;
            k = k + 1;
        }
        assert((sum as int) / (n as int) <= 0x7fff_ffff_ffff_ffff) by (nonlinear_arith)
            requires
                0 <= sum <= n * 0x7fff_ffff_ffff_ffff,
                n > 0,
        ;
        (sum / (n as i128)) as i64
    }

    /// Friction force that the tire of corner `i` tends to under normal force `normal`.
    pub fn corner_traction_target(&self, y: &Vec<i64>, i: usize, normal: i64) -> (r: i64)
        requires
            self.wf(),
            y@.len() == STATE_LEN,
            i < 4,
        ensures
            r == mul_spec(
                mul_spec(self.wheel.coefficient_of_friction as int, normal as int),
                unit_clamp(mul_spec(self.wheel.normalized_slip_stiffness as int, self.slip(y@, i as int))),
            ),
    {
        let b = 4 + 5 * i;
        let v = y[1];
        let tread = fx_mul(y[b + 3], self.wheel.rolling_radius);
        let abs_v: i128 = if v >= 0 {
            v as i128
        } else {
            -(v as i128)
        };
        let floor = if abs_v >= self.wheel.low_speed as i128 {
            saturate(abs_v)
        } else {
            self.wheel.low_speed
        };
        let slip = fx_div(saturate(tread as i128 - v as i128), floor);
        let scaled = fx_mul(self.wheel.normalized_slip_stiffness, slip);
        let shaped = if scaled < -SCALE {
            -SCALE
        } else if scaled > SCALE {
            SCALE
        } else {
            scaled
        };
        fx_mul(fx_mul(self.wheel.coefficient_of_friction, normal), shaped)
    }

    /// Drive torque on the wheel of corner `i`.
    pub fn corner_drive_torque(&self, c: &CarControl, y: &Vec<i64>, i: usize) -> (r: i64)
        requires
            self.wf(),
            y@.len() == STATE_LEN,
            i < 4,
        ensures
            r == self.drive_torque(*c, y@, i as int),
    {
        match &self.corners[i].drive {
            DriveType::Undriven => 0,
            DriveType::DrivenWheelLookup(l) => {
                assert(self.corners@[i as int].drive.wf());
                let speed = y[4 + 5 * slot(l.wheel) + 3];
                fx_mul(c.throttle, l.torque(speed))
            },
            DriveType::DrivenWheel(w) => fx_mul(c.throttle, w.max_torque),
        }
    }

    /// Spin acceleration of the wheel of corner `i`.
    pub fn corner_wheel_acceleration(&self, c: &CarControl, y: &Vec<i64>, i: usize) -> (r: i64)
        requires
            self.wf(),
            control_ok(*c),
            y@.len() == STATE_LEN,
            i < 4,
        ensures
            r == self.wheel_acceleration(*c, y@, i as int),
    {
        let b = 4 + 5 * i;
        assert(self.corners@[i as int].brake.max_torque >= 0);
        let drive = self.corner_drive_torque(c, y, i);
        let brake = self.corners[i].brake.torque(y[b + 3], c.brake, self.wheel.moi_y, self.dt);
        let reaction = fx_mul(self.wheel.rolling_radius, y[b + 4]);
        fx_div(saturate(drive as i128 + brake as i128 - reaction as i128), self.wheel.moi_y)
    }
}

impl Dynamics {
    /// Sum of the four suspension forces.
    pub open spec fn spring_sum(&self, y: Seq<i64>) -> int {
        clamp64(self.spring_force(y, 0) + self.spring_force(y, 1) + self.spring_force(y, 2) + self.spring_force(y, 3))
    }

    /// Sum of the four filtered tire forces.
    pub open spec fn traction_sum(&self, y: Seq<i64>) -> int {
        clamp64(y[sidx(0, 4)] + y[sidx(1, 4)] + y[sidx(2, 4)] + y[sidx(3, 4)])
    }

    /// Acceleration that the springs give the chassis.
    pub open spec fn heave(&self, y: Seq<i64>) -> int {
        div_spec(self.spring_sum(y), self.chassis_mass as int)
    }

    /// Rate of change of state entry `j`.
    pub open spec fn rate(&self, t: GridTerrain, c: CarControl, y: Seq<i64>, j: int) -> int {
        if j == 0 {
            y[1] as int
        } else if j == 1 {
            div_spec(self.traction_sum(y), self.total_mass as int)
        } else if j == 2 {
            y[3] as int
        } else if j == 3 {
            clamp64(self.heave(y) - self.gravity)
        } else {
            let i = (j - 4) / 5;
            let k = (j - 4) % 5;
            if k == 0 {
                y[sidx(i, 1)] as int
            } else if k == 1 {
                clamp64(
                    self.heave(y) + div_spec(
                        clamp64(self.spring_force(y, i) - self.normal_force(t, y, i)),
                        self.corner_mass as int,
                    ),
                )
            } else if k == 2 {
                y[sidx(i, 3)] as int
            } else if k == 3 {
                self.wheel_acceleration(c, y, i)
            } else {
                self.filter_rate(t, y, i)
            }
        }
    }

    /// Time derivative of the whole state.
    pub open spec fn derivative_spec(&self, t: GridTerrain, c: CarControl, y: Seq<i64>) -> Seq<i64> {
        Seq::new(STATE_LEN as nat, |j: int| self.rate(t, c, y, j) as i64)
    }

    /// Time derivative of the state `y` on terrain `t` under input `c`.
    pub fn derivative(&self, t: &GridTerrain, c: &CarControl, y: &Vec<i64>) -> (r: Vec<i64>)
        requires
            self.wf(),
            t.wf(),
            control_ok(*c),
            y@.len() == STATE_LEN,
        ensures
            r@ == self.derivative_spec(*t, *c, y@),
    {
        let mut springs: Vec<i64> = Vec::new();
        let mut normals: Vec<i64> = Vec::new();
        let mut i: usize = 0;
        while i < 4
            invariant
                self.wf(),
                t.wf(),
                y@.len() == STATE_LEN,
                i <= 4,
                springs@.len() == i,
                normals@.len() == i,
                forall|k: int| 0 <= k < i ==> #[trigger] springs@[k] == self.spring_force(y@, k),
                forall|k: int| 0 <= k < i ==> #[trigger] normals@[k] == self.normal_force(*t, y@, k),
            decreases 4 - i,
        {
            springs.push(self.corner_spring_force(y, i));
            normals.push(self.corner_normal_force(t, y, i));
            i = i + 1;
        }
        let spring_sum = saturate(
            springs[0] as i128 + springs[1] as i128 + springs[2] as i128 + springs[3] as i128,
        );
        let traction_sum = saturate(y[8] as i128 + y[13] as i128 + y[18] as i128 + y[23] as i128);
        let heave = fx_div(spring_sum, self.chassis_mass);

        let mut r: Vec<i64> = Vec::new();
        r.push(y[1]);
        r.push(fx_div(traction_sum, self.total_mass));
        r.push(y[3]);
        r.push(saturate(heave as i128 - self.gravity as i128));
        let mut i: usize = 0;
        while i < 4
            invariant
                self.wf(),
                t.wf(),
                control_ok(*c),
                y@.len() == STATE_LEN,
                i <= 4,
                springs@.len() == 4,
                normals@.len() == 4,
                forall|k: int| 0 <= k < 4 ==> #[trigger] springs@[k] == self.spring_force(y@, k),
                forall|k: int| 0 <= k < 4 ==> #[trigger] normals@[k] == self.normal_force(*t, y@, k),
                heave == self.heave(y@),
                r@.len() == 4 + 5 * i,
                forall|j: int| 0 <= j < r@.len() ==> #[trigger] r@[j] == self.rate(*t, *c, y@, j),
            decreases 4 - i,
        {
            let b = 4 + 5 * i;
            let normal = normals[i];
            let target = self.corner_traction_target(y, i, normal);
            let relative = fx_div(saturate(springs[i] as i128 - normal as i128), self.corner_mass);
            let ghost before = r@;
            r.push(y[b + 1]);
            r.push(saturate(heave as i128 + relative as i128));
            r.push(y[b + 3]);
            r.push(self.corner_wheel_acceleration(c, y, i));
            r.push(fx_div(saturate(target as i128 - y[b + 4] as i128), self.wheel.filter_time));
            proof {
                assert forall|j: int| 0 <= j < r@.len() implies #[trigger] r@[j] == self.rate(*t, *c, y@, j) by {
                    if j >= before.len() {
                        let k = j - b;
                        assert((j - 4) / 5 == i && (j - 4) % 5 == k) by (nonlinear_arith)
                            requires
                                j == 4 + 5 * i + k,
                                0 <= k < 5,
                        ;
                    } else {
                        assert(r@[j] == before[j]);
                    }
                }
            }
            i = i + 1;
        }
        assert(r@ =~= self.derivative_spec(*t, *c, y@));
        r
    }
}

} // verus!
