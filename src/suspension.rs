//! Spring-damper suspension between the chassis and a wheel carrier, and the
//! steering joint that may sit above it.

use vstd::prelude::*;
use crate::fixed::{
    clamp64, div_spec, floor_sqrt, fx_mul, isqrt, lemma_mul_le, mul_spec, SCALE,
};

verus! {

/// Largest mass, in fixed point, that the derivations of this crate accept
/// (a billion kilograms).
pub const MAX_MASS: i64 = 1_000_000_000_000_000;

/// Largest gravitational acceleration, in fixed point, that the derivations
/// accept (a hundred metres per second squared).
pub const MAX_GRAVITY: i64 = 100_000_000;

/// The force of a suspension of stiffness `k`, damping `c` and preload `p`
/// at extension `q` and extension rate `qd`: `p - k q - c qd`.
pub open spec fn suspension_force(k: int, c: int, p: int, q: int, qd: int) -> int {
    clamp64(p - mul_spec(k, q) - mul_spec(c, qd))
}

/// The share of a chassis of mass `mass` that one of four corners carries
/// under gravity `gravity`: `mass * gravity / 4`.
pub open spec fn corner_load(mass: int, gravity: int) -> int {
    mass * gravity / (4 * SCALE)
}

/// Spring-damper constants of one suspension corner.
#[derive(Clone, Copy, Debug, PartialEq, Eq, Structural)]
pub struct SuspensionComponent {
    pub stiffness: i64,
    pub damping: i64,
    pub preload: i64,
}

/// The stiffness that sinks a corner by a tenth of a metre under its load.
pub open spec fn ride_stiffness(mass: int, gravity: int) -> int {
    10 * corner_load(mass, gravity)
}

/// A quarter of critical damping for the corner's share of the chassis mass.
pub open spec fn ride_damping(stiffness: int, mass: int) -> int {
    floor_sqrt(stiffness * mass / 4) / 2
}

/// Suspension constants that hold a chassis of `mass` at rest at zero
/// extension under `gravity`.
pub open spec fn suspension_for_load_spec(mass: int, gravity: int) -> SuspensionComponent {
    SuspensionComponent {
        stiffness: ride_stiffness(mass, gravity) as i64,
        damping: ride_damping(ride_stiffness(mass, gravity), mass) as i64,
        preload: corner_load(mass, gravity) as i64,
    }
}

impl SuspensionComponent {
    pub fn new(stiffness: i64, damping: i64, preload: i64) -> (r: Self)
        ensures
            r == (SuspensionComponent { stiffness, damping, preload }),
    {
        SuspensionComponent { stiffness, damping, preload }
    }

    /// Force pushing chassis and wheel carrier apart at extension `q` and
    /// extension rate `qd`.
    pub fn force(&self, q: i64, qd: i64) -> (r: i64)
        ensures
            r == suspension_force(
                self.stiffness as int,
                self.damping as int,
                self.preload as int,
                q as int,
                qd as int,
            ),
    {
        let spring = fx_mul(self.stiffness, q);
        let damper = fx_mul(self.damping, qd);
        let r: i128 = self.preload as i128 - spring as i128 - damper as i128;
        crate::fixed::saturate(r)
    }
}

/// Derives the constants of one corner from the chassis mass and gravity.
pub fn suspension_for_load(mass: i64, gravity: i64) -> (r: SuspensionComponent)
    requires
        0 < mass <= MAX_MASS,
        0 < gravity <= MAX_GRAVITY,
    ensures
        r == suspension_for_load_spec(mass as int, gravity as int),
{
    proof {
        lemma_mul_le(mass as int, gravity as int, MAX_MASS as int, MAX_GRAVITY as int);
    }
    let load: i128 = (mass as i128) * (gravity as i128) / (4 * SCALE as i128);
    assert(load <= 250_000_000_000_000_000) by (nonlinear_arith)
        requires
            load == (mass as int) * (gravity as int) / 4_000_000,
            0 <= (mass as int) * (gravity as int) <= 1_000_000_000_000_000_000_000_000,
    ;
    let preload: i64 = load as i64;
    let stiffness: i64 = 10 * preload;
    proof {
        lemma_mul_le(stiffness as int, mass as int, 2_500_000_000_000_000_000int, MAX_MASS as int);
    }
    let root = isqrt((stiffness as u128) * (mass as u128) / 4);
    proof {
        if root >= 0x8000_0000_0000_0000 {
            lemma_mul_le(0x8000_0000_0000_0000, 0x8000_0000_0000_0000, root as int, root as int);
        }
    }
    let damping: i64 = (root / 2) as i64;
    SuspensionComponent { stiffness, damping, preload }
}

/// At rest a corner's suspension carries its share of the chassis: the preload
/// is `mass * gravity / 4` and the force at zero extension and zero rate
/// equals the preload.
pub proof fn lemma_suspension_at_rest(mass: int, gravity: int)
    requires
        0 < mass <= MAX_MASS,
        0 < gravity <= MAX_GRAVITY,
    ensures
        suspension_for_load_spec(mass, gravity).preload == mass * gravity / (4 * SCALE),
        ({
            let s = suspension_for_load_spec(mass, gravity);
            suspension_force(s.stiffness as int, s.damping as int, s.preload as int, 0, 0)
                == s.preload
        }),
{
    lemma_mul_le(mass, gravity, MAX_MASS as int, MAX_GRAVITY as int);
    let s = suspension_for_load_spec(mass, gravity);
    assert(s.stiffness as int * 0 == 0);
    assert(s.damping as int * 0 == 0);
}

/// Steering by a bounded angle: the wheel turns by `max_angle` times the
/// steering input.
#[derive(Clone, Copy, Debug, PartialEq, Eq, Structural)]
pub struct Steering {
    pub max_angle: i64,
}

/// Steering tied to a path curvature: `x` is the distance to the rear axle,
/// `y` the lateral offset of the wheel, `max_curvature` the tightest turn.
#[derive(Clone, Copy, Debug, PartialEq, Eq, Structural)]
pub struct SteeringCurvature {
    pub x: i64,
    pub y: i64,
    pub max_curvature: i64,
}

/// Whether and how a corner steers.
#[derive(Clone, Copy, Debug, PartialEq, Eq, Structural)]
pub enum SteeringType {
    NoSteering,
    Curvature(SteeringCurvature),
    Angle(Steering),
}

/// Steering angle for input `input` in `[-SCALE, SCALE]`.
pub open spec fn steer_angle_spec(max_angle: int, input: int) -> int {
    mul_spec(input, max_angle)
}

/// Path curvature asked for by input `input`; for input in `[-SCALE, SCALE]`
/// no tighter than `max_curvature`.
pub open spec fn curvature_of(max_curvature: int, input: int) -> int {
    mul_spec(input, max_curvature)
}

/// For input within `[-SCALE, SCALE]` the curvature asked for is no tighter
/// than `max_curvature`.
pub proof fn lemma_curvature_bounded(max_curvature: int, input: int)
    requires
        max_curvature >= 0,
        -SCALE <= input <= SCALE,
    ensures
        -max_curvature <= curvature_of(max_curvature, input) <= max_curvature,
{
    let p = input * max_curvature;
    assert(-(SCALE * max_curvature) <= p <= SCALE * max_curvature) by (nonlinear_arith)
        requires
            max_curvature >= 0,
            -SCALE <= input <= SCALE,
            p == input * max_curvature,
    ;
    crate::fixed::lemma_div_trunc_bounds(p, SCALE as int);
    if p >= 0 {
        assert(p / SCALE as int <= max_curvature) by (nonlinear_arith)
            requires
                0 <= p <= SCALE * max_curvature,
        ;
    } else {
        assert((-p) / SCALE as int <= max_curvature) by (nonlinear_arith)
            requires
                0 <= -p <= SCALE * max_curvature,
        ;
    }
}

/// Tangent of the steer angle that makes a wheel at `(x, y)` from the middle
/// of the rear axle roll along a path of curvature `c`: `c x / (1 - c y)`.
pub open spec fn steer_tangent_spec(x: int, y: int, c: int) -> int {
    div_spec(mul_spec(c, x), clamp64(SCALE - mul_spec(c, y)))
}

impl Steering {
    /// The wheel's steer angle for input `input`.
    pub fn angle(&self, input: i64) -> (r: i64)
        requires
            -SCALE <= input <= SCALE,
        ensures
            r == steer_angle_spec(self.max_angle as int, input as int),
    {
        fx_mul(input, self.max_angle)
    }
}

impl SteeringCurvature {
    /// The tangent of this wheel's steer angle for input `input`, so that
    /// inner and outer wheels follow circles about one centre; `None` where
    /// that centre would lie at or inside the wheel.
    pub fn steer_tangent(&self, input: i64) -> (r: Option<i64>)
        requires
            -SCALE <= input <= SCALE,
        ensures
            ({
                let c = curvature_of(self.max_curvature as int, input as int);
                &&& mul_spec(c, self.y as int) < SCALE ==> r == Some(
                    steer_tangent_spec(self.x as int, self.y as int, c) as i64,
                )
                &&& mul_spec(c, self.y as int) >= SCALE ==> r is None
            }),
    {
        let c = fx_mul(input, self.max_curvature);
        let lateral = fx_mul(c, self.y);
        if lateral < SCALE {
            Some(crate::fixed::fx_div(fx_mul(c, self.x), crate::fixed::saturate(SCALE as i128 - lateral as i128)))
        } else {
            None
        }
    }
}

} // verus!
