//! Fixed-step fourth-order Runge-Kutta integration of the joint states.

use vstd::prelude::*;
use crate::dynamics::{control_ok, Dynamics, STATE_LEN};
use crate::fixed::{add_spec, clamp64, div_trunc, fx_add, fx_mul, i128_div_trunc, mul_spec, saturate};
use crate::terrain::GridTerrain;
use crate::vehicle::CarControl;

verus! {

/// `y + h k`, entry by entry.
pub open spec fn axpy_spec(y: Seq<i64>, h: int, k: Seq<i64>) -> Seq<i64> {
    Seq::new(y.len(), |j: int| add_spec(y[j] as int, mul_spec(h, k[j] as int)) as i64)
}

/// The Runge-Kutta update: `y + h (k1 + 2 k2 + 2 k3 + k4) / 6`, entry by entry.
pub open spec fn rk4_combine(y: Seq<i64>, h: int, k1: Seq<i64>, k2: Seq<i64>, k3: Seq<i64>, k4: Seq<i64>) -> Seq<i64> {
    Seq::new(
        y.len(),
        |j: int|
            clamp64(
                y[j] + div_trunc(mul_spec(h, clamp64(k1[j] + 2 * k2[j] + 2 * k3[j] + k4[j])), 6),
            ) as i64,
    )
}

/// `y + h k`, entry by entry.
pub fn axpy(y: &Vec<i64>, h: i64, k: &Vec<i64>) -> (r: Vec<i64>)
    requires
        y@.len() == k@.len(),
    ensures
        r@ == axpy_spec(y@, h as int, k@),
{
    let mut r: Vec<i64> = Vec::new();
    let mut j: usize = 0;
    while j < y.len()
        invariant
            y@.len() == k@.len(),
            j <= y@.len(),
            r@.len() == j,
            forall|i: int| 0 <= i < j ==> #[trigger] r@[i] == add_spec(y@[i] as int, mul_spec(h as int, k@[i] as int)),
        decreases y@.len() - j,
    {
        r.push(fx_add(y[j], fx_mul(h, k[j])));
        j = j + 1;
    }
    assert(r@ =~= axpy_spec(y@, h as int, k@));
    r
}

fn combine(y: &Vec<i64>, h: i64, k1: &Vec<i64>, k2: &Vec<i64>, k3: &Vec<i64>, k4: &Vec<i64>) -> (r: Vec<i64>)
    requires
        k1@.len() == y@.len(),
        k2@.len() == y@.len(),
        k3@.len() == y@.len(),
        k4@.len() == y@.len(),
    ensures
        r@ == rk4_combine(y@, h as int, k1@, k2@, k3@, k4@),
{
    let mut r: Vec<i64> = Vec::new();
    let mut j: usize = 0;
    while j < y.len()
        invariant
            k1@.len() == y@.len(),
            k2@.len() == y@.len(),
            k3@.len() == y@.len(),
            k4@.len() == y@.len(),
            j <= y@.len(),
            r@.len() == j,
            forall|i: int|
                0 <= i < j ==> #[trigger] r@[i] == clamp64(
                    y@[i] + div_trunc(mul_spec(h as int, clamp64(k1@[i] + 2 * k2@[i] + 2 * k3@[i] + k4@[i])), 6),
                ),
        decreases y@.len() - j,
    {
        let slope = saturate(k1[j] as i128 + 2 * (k2[j] as i128) + 2 * (k3[j] as i128) + k4[j] as i128);
        let change = i128_div_trunc(fx_mul(h, slope) as i128, 6);
        r.push(saturate(y[j] as i128 + change));
        j = j + 1;
    }
    assert(r@ =~= rk4_combine(y@, h as int, k1@, k2@, k3@, k4@));
    r
}

impl Dynamics {
    /// The state one tick after `y`.
    pub open spec fn rk4_spec(&self, t: GridTerrain, c: CarControl, y: Seq<i64>) -> Seq<i64> {
        let h = self.dt as int;
        let k1 = self.derivative_spec(t, c, y);
        let k2 = self.derivative_spec(t, c, axpy_spec(y, h / 2, k1));
        let k3 = self.derivative_spec(t, c, axpy_spec(y, h / 2, k2));
        let k4 = self.derivative_spec(t, c, axpy_spec(y, h, k3));
        rk4_combine(y, h, k1, k2, k3, k4)
    }

    /// The state after `n` ticks from `y`.
    pub open spec fn simulate(&self, t: GridTerrain, c: CarControl, y: Seq<i64>, n: nat) -> Seq<i64>
        decreases n,
    {
        if n == 0 {
            y
        } else {
            self.simulate(t, c, self.rk4_spec(t, c, y), (n - 1) as nat)
        }
    }

    /// Advances the state `y` by one tick.
    pub fn rk4_step(&self, t: &GridTerrain, c: &CarControl, y: &Vec<i64>) -> (r: Vec<i64>)
        requires
            self.wf(),
            t.wf(),
            control_ok(*c),
            y@.len() == STATE_LEN,
        ensures
            r@ == self.rk4_spec(*t, *c, y@),
            r@.len() == STATE_LEN,
    {
        let h = self.dt;
        let half = h / 2;
        let k1 = self.derivative(t, c, y);
        let y2 = axpy(y, half, &k1);
        let k2 = self.derivative(t, c, &y2);
        let y3 = axpy(y, half, &k2);
        let k3 = self.derivative(t, c, &y3);
        let y4 = axpy(y, h, &k3);
        let k4 = self.derivative(t, c, &y4);
        combine(y, h, &k1, &k2, &k3, &k4)
    }
}

/// Simulated time: the step, the time reached, and an optional end.
#[derive(Clone, Copy, Debug, PartialEq, Eq, Structural)]
pub struct SimTime {
    pub dt: i64,
    pub time: i64,
    pub end_time: Option<i64>,
}

/// The time reached from `time` after `n` steps of `dt`.
pub open spec fn advanced_time(time: int, dt: int, n: nat) -> int
    decreases n,
{
    if n == 0 {
        time
    } else {
        advanced_time(add_spec(time, dt), dt, (n - 1) as nat)
    }
}

impl SimTime {
    pub fn new(dt: i64, time: i64, end_time: Option<i64>) -> (r: Self)
        ensures
            r == (SimTime { dt, time, end_time }),
    {
        SimTime { dt, time, end_time }
    }

    /// Whether the end time has been reached.
    pub fn is_complete(&self) -> (r: bool)
        ensures
            r == match self.end_time {
                Some(e) => self.time >= e,
                None => false,
            },
    {
        match self.end_time {
            Some(e) => self.time >= e,
            None => false,
        }
    }

    /// Moves the time on by one step.
    pub fn advance(&mut self)
        ensures
            final(self).dt == old(self).dt,
            final(self).end_time == old(self).end_time,
            final(self).time == add_spec(old(self).time as int, old(self).dt as int),
    {
        self.time = fx_add(self.time, self.dt);
    }
}

} // verus!
