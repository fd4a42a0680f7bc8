//! Drivetrain and brakes: torque applied to a wheel joint each tick.

use vstd::prelude::*;
use crate::fixed::{
    div_trunc, fx_mul, i128_div_trunc, lemma_div_trunc_bounds, lemma_i64_product_bound, lemma_mul_le, mul_spec, SCALE,
};
use crate::vehicle::Corner;

verus! {

/// Speed values strictly increase along the sequence.
pub open spec fn strictly_increasing(s: Seq<i64>) -> bool {
    forall|i: int, j: int| 0 <= i < j < s.len() ==> s[i] < s[j]
}

/// The torque on the straight line through `(s0, t0)` and `(s1, t1)` at speed `s`,
/// rounded toward `t0`.
pub open spec fn lerp(s0: int, t0: int, s1: int, t1: int, s: int) -> int {
    t0 + div_trunc((t1 - t0) * (s - s0), s1 - s0)
}

/// The torque that a table of breakpoints gives at speed `s`: the end values
/// outside the table, linear interpolation between neighbouring breakpoints.
pub open spec fn table_torque(speeds: Seq<i64>, torques: Seq<i64>, s: int) -> int
    recommends
        speeds.len() == torques.len(),
        speeds.len() > 0,
{
    if s <= speeds[0] {
        torques[0] as int
    } else if s >= speeds.last() {
        torques.last() as int
    } else {
        let i = choose|i: int| 0 <= i < speeds.len() - 1 && #[trigger] speeds[i] <= s < speeds[i + 1];
        lerp(speeds[i] as int, torques[i] as int, speeds[i + 1] as int, torques[i + 1] as int, s)
    }
}

/// Interpolates between `(s0, t0)` and `(s1, t1)` at a speed `s` in `[s0, s1)`.
pub fn interpolate(s0: i64, t0: i64, s1: i64, t1: i64, s: i64) -> (r: i64)
    requires
        s0 <= s < s1,
    ensures
        r == lerp(s0 as int, t0 as int, s1 as int, t1 as int, s as int),
        t0 <= t1 ==> t0 <= r <= t1,
        t1 <= t0 ==> t1 <= r <= t0,
{
    let span: u128 = ((s1 as i128) - (s0 as i128)) as u128;
    let ds: u128 = ((s as i128) - (s0 as i128)) as u128;
    let rising = t1 >= t0;
    let dt: u128 = if rising {
        ((t1 as i128) - (t0 as i128)) as u128
    } else {
        ((t0 as i128) - (t1 as i128)) as u128
    };
    assert(dt * ds < 0x1_0000_0000_0000_0000_0000_0000_0000_0000) by (nonlinear_arith)
        requires
            dt < 0x1_0000_0000_0000_0000,
            ds < 0x1_0000_0000_0000_0000,
    ;
    let prod: u128 = dt * ds;
    let q: u128 = prod / span;
    assert(q <= dt) by (nonlinear_arith)
        requires
            q == prod / span,
            prod == dt * ds,
            ds < span,
            span > 0,
    ;
    proof {
        let a = (t1 as int - t0 as int) * (s as int - s0 as int);
        if rising {
            assert(a == dt * ds);
        } else {
            assert(a == -(dt * ds)) by (nonlinear_arith)
                requires
                    a == (t1 as int - t0 as int) * (s as int - s0 as int),
                    dt == t0 as int - t1 as int,
                    ds == s as int - s0 as int,
            ;
            if dt * ds == 0 {
                assert(prod / span == 0);
            }
        }
    }
    let r: i128 = if rising {
        (t0 as i128) + (q as i128)
    } else {
        (t0 as i128) - (q as i128)
    };
    r as i64
}

/// Torque from a piecewise-linear table of speed breakpoints, as an engine
/// and gearing curve. The wheel named by `wheel` supplies the speed.
#[derive(Clone, Debug)]
pub struct DrivenWheelLookup {
    pub wheel: Corner,
    pub speeds: Vec<i64>,
    pub torques: Vec<i64>,
}

/// Below the first breakpoint a table gives the first torque, above the last
/// the last torque, and between two neighbouring breakpoints the linear
/// interpolation of their torques: never a value beyond the table.
pub proof fn lemma_table_torque(speeds: Seq<i64>, torques: Seq<i64>, s: int)
    requires
        speeds.len() == torques.len(),
        speeds.len() > 0,
        strictly_increasing(speeds),
    ensures
        s <= speeds[0] ==> table_torque(speeds, torques, s) == torques[0],
        s >= speeds.last() ==> table_torque(speeds, torques, s) == torques.last(),
        forall|i: int|
            0 <= i < speeds.len() - 1 && #[trigger] speeds[i] <= s < speeds[i + 1]
                ==> table_torque(speeds, torques, s) == lerp(
                speeds[i] as int,
                torques[i] as int,
                speeds[i + 1] as int,
                torques[i + 1] as int,
                s,
            ),
{
    let n = speeds.len();
    if s >= speeds.last() && s <= speeds[0] {
        if n > 1 {
            assert(speeds[0] < speeds[n - 1]);
        }
    }
    assert forall|i: int|
        0 <= i < n - 1 && #[trigger] speeds[i] <= s < speeds[i + 1] implies table_torque(
        speeds,
        torques,
        s,
    ) == lerp(speeds[i] as int, torques[i] as int, speeds[i + 1] as int, torques[i + 1] as int, s) by {
        if s <= speeds[0] {
            if i > 0 {
                assert(speeds[0] < speeds[i]);
            }
            assert(s == speeds[0]);
            assert((torques[1] - torques[0]) * (s - speeds[0]) == 0);
        } else {
            assert(s < speeds.last()) by {
                if i + 1 < n - 1 {
                    assert(speeds[i + 1] < speeds[n - 1]);
                }
            }
            let k = choose|k: int| 0 <= k < n - 1 && #[trigger] speeds[k] <= s < speeds[k + 1];
            if k < i {
                assert(speeds[k + 1] <= speeds[i]);
            } else if k > i {
                assert(speeds[i + 1] <= speeds[k]);
            }
        }
    }
}

impl DrivenWheelLookup {
    /// Equal, non-zero lengths, with strictly increasing speeds.
    pub open spec fn wf(&self) -> bool {
        &&& self.speeds@.len() == self.torques@.len()
        &&& self.speeds@.len() > 0
        &&& strictly_increasing(self.speeds@)
    }

    pub fn new(wheel: Corner, speeds: Vec<i64>, torques: Vec<i64>) -> (r: Self)
        requires
            speeds@.len() == torques@.len(),
            speeds@.len() > 0,
            strictly_increasing(speeds@),
        ensures
            r.wf(),
            r.wheel == wheel,
            r.speeds@ == speeds@,
            r.torques@ == torques@,
    {
        DrivenWheelLookup { wheel, speeds, torques }
    }

    /// Checks a table before use: `None` unless the two sequences have the
    /// same, non-zero length and the speeds strictly increase.
    pub fn checked(wheel: Corner, speeds: Vec<i64>, torques: Vec<i64>) -> (r: Option<Self>)
        ensures
            r is Some <==> (speeds@.len() == torques@.len() && speeds@.len() > 0 && strictly_increasing(speeds@)),
            r matches Some(l) ==> l.wf() && l.wheel == wheel && l.speeds@ == speeds@ && l.torques@ == torques@,
    {
        if speeds.len() != torques.len() || speeds.len() == 0 {
            return None;
        }
        let mut i: usize = 1;
        while i < speeds.len()
            invariant
                1 <= i <= speeds@.len(),
                forall|a: int, b: int| 0 <= a < b < i ==> speeds@[a] < speeds@[b],
            decreases speeds@.len() - i,
        {
            if speeds[i - 1] >= speeds[i] {
                assert(!strictly_increasing(speeds@)) by {
                    assert(speeds@[i - 1] >= speeds@[i as int]);
                }
                return None;
            }
            assert forall|a: int, b: int| 0 <= a < b < i + 1 implies speeds@[a] < speeds@[b] by {
                if b == i && a < i - 1 {
                    assert(speeds@[a] < speeds@[i - 1]);
                }
            }
            i = i + 1;
        }
        Some(DrivenWheelLookup { wheel, speeds, torques })
    }

    /// A copy of this table.
    pub fn duplicate(&self) -> (r: Self)
        ensures
            r.wheel == self.wheel,
            r.speeds@ == self.speeds@,
            r.torques@ == self.torques@,
    {
        let speeds = self.speeds.clone();
        let torques = self.torques.clone();
        assert(speeds@ =~= self.speeds@);
        assert(torques@ =~= self.torques@);
        DrivenWheelLookup { wheel: self.wheel, speeds, torques }
    }

    /// The table's torque at wheel speed `speed`.
    pub fn torque(&self, speed: i64) -> (r: i64)
        requires
            self.wf(),
        ensures
            r == table_torque(self.speeds@, self.torques@, speed as int),
    {
        let n = self.speeds.len();
        if speed <= self.speeds[0] {
            return self.torques[0];
        }
        if speed >= self.speeds[n - 1] {
            return self.torques[n - 1];
        }
        let mut i: usize = 0;
        while i + 2 < n && self.speeds[i + 1] <= speed
            invariant
                self.wf(),
                n == self.speeds@.len(),
                0 <= i < n - 1,
                self.speeds@[i as int] <= speed,
                speed < self.speeds@[n - 1],
            decreases n - i,
        {
            i = i + 1;
        }
        let r = interpolate(self.speeds[i], self.torques[i], self.speeds[i + 1], self.torques[i + 1], speed);
        proof {
            lemma_table_torque(self.speeds@, self.torques@, speed as int);
            assert(self.speeds@[i as int] <= speed < self.speeds@[i + 1]);
        }
        r
    }
}

/// A wheel drive that gives a fixed torque scaled by throttle.
#[derive(Clone, Copy, Debug)]
pub struct DrivenWheel {
    pub max_torque: i64,
}

/// How a wheel is driven.
#[derive(Clone, Debug)]
pub enum DriveType {
    Undriven,
    DrivenWheelLookup(DrivenWheelLookup),
    DrivenWheel(DrivenWheel),
}

/// Two drives behave alike: same kind, same tables.
pub open spec fn same_drive(a: DriveType, b: DriveType) -> bool {
    match (a, b) {
        (DriveType::Undriven, DriveType::Undriven) => true,
        (DriveType::DrivenWheelLookup(x), DriveType::DrivenWheelLookup(y)) => {
            &&& x.wheel == y.wheel
            &&& x.speeds@ == y.speeds@
            &&& x.torques@ == y.torques@
        },
        (DriveType::DrivenWheel(x), DriveType::DrivenWheel(y)) => x == y,
        _ => false,
    }
}

impl DriveType {
    pub open spec fn wf(&self) -> bool {
        match self {
            DriveType::DrivenWheelLookup(d) => d.wf(),
            _ => true,
        }
    }

    /// A copy of this drive.
    pub fn duplicate(&self) -> (r: Self)
        ensures
            same_drive(r, *self),
            r.wf() == self.wf(),
    {
        match self {
            DriveType::Undriven => DriveType::Undriven,
            DriveType::DrivenWheelLookup(l) => DriveType::DrivenWheelLookup(l.duplicate()),
            DriveType::DrivenWheel(w) => DriveType::DrivenWheel(*w),
        }
    }
}

/// Magnitude of the torque that stops a wheel spinning at `qd` within one tick
/// of length `dt`, for a wheel of moment of inertia `moi`.
pub open spec fn stopping_torque(qd: int, moi: int, dt: int) -> int {
    (if qd >= 0 { qd } else { -qd }) * moi / dt
}

/// Braking torque: against the spin, of magnitude `brake * max_torque`, but no
/// more than stops the wheel within the tick.
pub open spec fn brake_torque_spec(qd: int, brake: int, max_torque: int, moi: int, dt: int) -> int {
    let demand = mul_spec(brake, max_torque);
    let cap = stopping_torque(qd, moi, dt);
    let m = if demand <= cap { demand } else { cap };
    if qd > 0 {
        -m
    } else if qd < 0 {
        m
    } else {
        0
    }
}

/// Wheel speed after a torque acts for one tick.
pub open spec fn spin_after(qd: int, torque: int, moi: int, dt: int) -> int {
    qd + div_trunc(torque * dt, moi)
}

/// A brake on one wheel, applying up to `max_torque`.
#[derive(Clone, Copy, Debug)]
pub struct BrakeWheel {
    pub max_torque: i64,
}

/// Maximum brake torques of the front and rear wheels.
#[derive(Clone, Copy, Debug)]
pub struct Brake {
    pub front_torque: i64,
    pub rear_torque: i64,
}

impl BrakeWheel {
    /// Torque of this brake on a wheel spinning at `qd`, for brake input `brake`
    /// in `[0, SCALE]`.
    pub fn torque(&self, qd: i64, brake: i64, moi: i64, dt: i64) -> (r: i64)
        requires
            0 <= brake <= SCALE,
            self.max_torque >= 0,
            moi > 0,
            dt > 0,
        ensures
            r == brake_torque_spec(qd as int, brake as int, self.max_torque as int, moi as int, dt as int),
    {
        let demand = fx_mul(brake, self.max_torque);
        proof {
            let p = brake as int * self.max_torque as int;
            assert(0 <= p <= SCALE as int * self.max_torque as int) by (nonlinear_arith)
                requires
                    0 <= brake <= SCALE,
                    self.max_torque >= 0,
                    p == brake as int * self.max_torque as int,
            ;
            lemma_div_trunc_bounds(p, SCALE as int);
            assert(div_trunc(p, SCALE as int) * SCALE <= p);
            assert(div_trunc(p, SCALE as int) <= self.max_torque) by (nonlinear_arith)
                requires
                    div_trunc(p, SCALE as int) * SCALE <= p,
                    p <= SCALE as int * self.max_torque as int,
            ;
        }
        let speed: u128 = if qd >= 0 {
            qd as u128
        } else {
            (-(qd as i128)) as u128
        };
        proof {
            lemma_mul_le(speed as int, moi as int, 0x8000_0000_0000_0000, 0x8000_0000_0000_0000);
        }
        let cap: u128 = speed * (moi as u128) / (dt as u128);
        let m: i64 = if (demand as u128) <= cap {
            demand
        } else {
            cap as i64
        };
        if qd > 0 {
            -m
        } else if qd < 0 {
            m
        } else {
            0
        }
    }

    /// Wheel speed after this brake has acted on a wheel spinning at `qd`
    /// for one tick of length `dt`.
    pub fn spin_after_brake(&self, qd: i64, brake: i64, moi: i64, dt: i64) -> (r: i64)
        requires
            0 <= brake <= SCALE,
            self.max_torque >= 0,
            moi > 0,
            dt > 0,
        ensures
            r == spin_after(
                qd as int,
                brake_torque_spec(qd as int, brake as int, self.max_torque as int, moi as int, dt as int),
                moi as int,
                dt as int,
            ),
    {
        let t = self.torque(qd, brake, moi, dt);
        proof {
            lemma_brake_keeps_direction(qd as int, brake as int, self.max_torque as int, moi as int, dt as int);
            lemma_i64_product_bound(t, dt);
        }
        let change = i128_div_trunc((t as i128) * (dt as i128), moi as i128);
        (qd as i128 + change) as i64
    }
}

/// Braking never reverses a wheel's spin within one tick: the speed after the
/// tick has the sign of the speed before it, or is zero.
pub proof fn lemma_brake_keeps_direction(qd: int, brake: int, max_torque: int, moi: int, dt: int)
    requires
        0 <= brake <= SCALE,
        max_torque >= 0,
        moi > 0,
        dt > 0,
    ensures
        qd > 0 ==> 0 <= spin_after(qd, brake_torque_spec(qd, brake, max_torque, moi, dt), moi, dt) <= qd,
        qd < 0 ==> qd <= spin_after(qd, brake_torque_spec(qd, brake, max_torque, moi, dt), moi, dt) <= 0,
        qd == 0 ==> spin_after(qd, brake_torque_spec(qd, brake, max_torque, moi, dt), moi, dt) == 0,
{
    let demand = mul_spec(brake, max_torque);
    let cap = stopping_torque(qd, moi, dt);
    let speed = if qd >= 0 { qd } else { -qd };
    assert(demand >= 0) by {
        assert(brake * max_torque >= 0) by (nonlinear_arith)
            requires
                brake >= 0,
                max_torque >= 0,
        ;
        lemma_div_trunc_bounds(brake * max_torque, SCALE as int);
    }
    let m = if demand <= cap { demand } else { cap };
    assert(0 <= m <= speed * moi / dt);
    assert(m * dt <= speed * moi) by (nonlinear_arith)
        requires
            0 <= m <= speed * moi / dt,
            dt > 0,
            speed >= 0,
            moi > 0,
    ;
    assert(0 <= (m * dt) / moi <= speed) by (nonlinear_arith)
        requires
            0 <= m * dt <= speed * moi,
            moi > 0,
            speed >= 0,
    ;
    if qd > 0 {
        assert(-m * dt == -(m * dt)) by (nonlinear_arith);
    } else if qd < 0 {
        assert(m * dt >= 0);
    }
}

} // verus!
