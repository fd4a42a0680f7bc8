//! One car on a terrain, advanced tick by tick.

use vstd::prelude::*;
use crate::drive::{same_drive, BrakeWheel};
use crate::dynamics::{control_ok, CornerModel, Dynamics, STATE_LEN};
use crate::fixed::{add_spec, Vector};
use crate::integrator::{advanced_time, SimTime};
use crate::suspension::SuspensionComponent;
use crate::terrain::GridTerrain;
use crate::vehicle::{CarControl, CarDefinition};

verus! {

/// The state in which a car starts: at its initial position, at rest.
pub open spec fn initial_state_spec(def: CarDefinition) -> Seq<i64> {
    Seq::new(
        STATE_LEN as nat,
        |j: int|
            if j == 0 {
                def.chassis.initial_position.x
            } else if j == 2 {
                def.chassis.initial_position.z
            } else {
                0i64
            },
    )
}

/// The model of `def`, under the gravity it was built for, with tick `dt`.
pub open spec fn models(d: Dynamics, def: CarDefinition, dt: int) -> bool {
    &&& d.chassis_mass == def.chassis.mass
    &&& d.corner_mass == def.suspension@[0].mass + def.wheel.mass
    &&& d.total_mass == d.chassis_mass + 4 * d.corner_mass
    &&& d.gravity == def.gravity
    &&& d.lateral == def.chassis.initial_position.y
    &&& d.wheel == def.wheel
    &&& d.dt == dt
    &&& d.corners@.len() == 4
    &&& forall|i: int|
        0 <= i < 4 ==> {
            let c = #[trigger] d.corners@[i];
            let s = def.suspension@[i];
            &&& c.location == s.location
            &&& c.suspension == (SuspensionComponent { stiffness: s.stiffness, damping: s.damping, preload: s.preload })
            &&& same_drive(c.drive, def.drives@[i])
            &&& c.brake.max_torque == if i < 2 { def.brake.front_torque } else { def.brake.rear_torque }
        }
}

impl Dynamics {
    /// The equations of motion of the car `def`.
    pub fn new(def: &CarDefinition, dt: i64) -> (r: Self)
        requires
            def.wf(),
            dt > 0,
        ensures
            r.wf(),
            models(r, *def, dt as int),
    {
        let corner_mass = def.suspension[0].mass + def.wheel.mass;
        let mut corners: Vec<CornerModel> = Vec::new();
        let mut i: usize = 0;
        while i < 4
            invariant
                def.wf(),
                i <= 4,
                corners@.len() == i,
                forall|k: int|
                    0 <= k < i ==> {
                        let c = #[trigger] corners@[k];
                        let s = def.suspension@[k];
                        &&& c.location == s.location
                        &&& c.suspension == (SuspensionComponent { stiffness: s.stiffness, damping: s.damping, preload: s.preload })
                        &&& same_drive(c.drive, def.drives@[k])
                        &&& c.drive.wf()
                        &&& c.brake.max_torque == if k < 2 { def.brake.front_torque } else { def.brake.rear_torque }
                    },
            decreases 4 - i,
        {
            let s = &def.suspension[i];
            let max_torque = if i < 2 {
                def.brake.front_torque
            } else {
                def.brake.rear_torque
            };
            assert(def.drives@[i as int].wf());
            corners.push(
                CornerModel {
                    location: s.location,
                    suspension: SuspensionComponent::new(s.stiffness, s.damping, s.preload),
                    drive: def.drives[i].duplicate(),
                    brake: BrakeWheel { max_torque },
                },
            );
            i = i + 1;
        }
        Dynamics {
            chassis_mass: def.chassis.mass,
            corner_mass,
            total_mass: def.chassis.mass + 4 * corner_mass,
            gravity: def.gravity,
            lateral: def.chassis.initial_position.y,
            wheel: def.wheel,
            corners,
            dt,
        }
    }
}

/// The state of the car `def` at its start.
pub fn initial_state(def: &CarDefinition) -> (r: Vec<i64>)
    ensures
        r@ == initial_state_spec(*def),
{
    let mut r: Vec<i64> = Vec::new();
    let mut j: usize = 0;
    while j < STATE_LEN
        invariant
            j <= STATE_LEN,
            r@.len() == j,
            forall|i: int| 0 <= i < j ==> #[trigger] r@[i] == initial_state_spec(*def)[i],
        decreases STATE_LEN - j,
    {
        let v = if j == 0 {
            def.chassis.initial_position.x
        } else if j == 2 {
            def.chassis.initial_position.z
        } else {
            0
        };
        r.push(v);
        j = j + 1;
    }
    assert(r@ =~= initial_state_spec(*def));
    r
}

/// A car driving on a terrain.
pub struct Simulation {
    pub dynamics: Dynamics,
    pub terrain: GridTerrain,
    pub control: CarControl,
    pub state: Vec<i64>,
    pub time: SimTime,
}

impl Simulation {
    pub open spec fn wf(&self) -> bool {
        &&& self.dynamics.wf()
        &&& self.terrain.wf()
        &&& control_ok(self.control)
        &&& self.state@.len() == STATE_LEN
        &&& self.time.dt == self.dynamics.dt
    }

    /// Places the car `def` at its start on `terrain`, under the gravity it was
    /// built for, with the clock `time`.
    pub fn new(def: &CarDefinition, terrain: GridTerrain, time: SimTime) -> (r: Self)
        requires
            def.wf(),
            terrain.wf(),
            control_ok(def.carcontrol),
            time.dt > 0,
        ensures
            r.wf(),
            models(r.dynamics, *def, time.dt as int),
            r.terrain == terrain,
            r.control == def.carcontrol,
            r.state@ == initial_state_spec(*def),
            r.time == time,
    {
        Simulation {
            dynamics: Dynamics::new(def, time.dt),
            terrain,
            control: def.carcontrol,
            state: initial_state(def),
            time,
        }
    }

    /// Sets the driver input for the ticks to come.
    pub fn set_control(&mut self, throttle: i64, steering: i64, brake: i64)
        requires
            old(self).wf(),
            0 <= throttle <= crate::fixed::SCALE,
            0 <= brake <= crate::fixed::SCALE,
        ensures
            final(self).wf(),
            final(self).control == (CarControl { throttle, steering, brake, ..old(self).control }),
            final(self).dynamics == old(self).dynamics,
            final(self).terrain == old(self).terrain,
            final(self).state == old(self).state,
            final(self).time == old(self).time,
    {
        self.control = CarControl { throttle, steering, brake, ..self.control };
    }

    /// Advances the car by one tick.
    pub fn step(&mut self)
        requires
            old(self).wf(),
        ensures
            final(self).wf(),
            final(self).state@ == old(self).dynamics.rk4_spec(old(self).terrain, old(self).control, old(self).state@),
            final(self).time.time == add_spec(old(self).time.time as int, old(self).time.dt as int),
            final(self).time.dt == old(self).time.dt,
            final(self).time.end_time == old(self).time.end_time,
            final(self).dynamics == old(self).dynamics,
            final(self).terrain == old(self).terrain,
            final(self).control == old(self).control,
    {
        let next = self.dynamics.rk4_step(&self.terrain, &self.control, &self.state);
        self.state = next;
        self.time.advance();
    }

    /// Advances the car by `ticks` ticks.
    pub fn run(&mut self, ticks: u64)
        requires
            old(self).wf(),
        ensures
            final(self).wf(),
            final(self).state@ == old(self).dynamics.simulate(
                old(self).terrain,
                old(self).control,
                old(self).state@,
                ticks as nat,
            ),
            final(self).dynamics == old(self).dynamics,
            final(self).terrain == old(self).terrain,
            final(self).control == old(self).control,
            final(self).time.dt == old(self).time.dt,
            final(self).time.end_time == old(self).time.end_time,
            final(self).time.time == advanced_time(old(self).time.time as int, old(self).time.dt as int, ticks as nat),
    {
        let mut n: u64 = 0;
        while n < ticks
            invariant
                self.wf(),
                n <= ticks,
                self.dynamics == old(self).dynamics,
                self.terrain == old(self).terrain,
                self.control == old(self).control,
                old(self).dynamics.simulate(old(self).terrain, old(self).control, old(self).state@, ticks as nat)
                    == self.dynamics.simulate(self.terrain, self.control, self.state@, (ticks - n) as nat),
                self.time.dt == old(self).time.dt,
                self.time.end_time == old(self).time.end_time,
                advanced_time(old(self).time.time as int, old(self).time.dt as int, ticks as nat)
                    == advanced_time(self.time.time as int, self.time.dt as int, (ticks - n) as nat),
            decreases ticks - n,
        {
            self.step();
            n = n + 1;
        }
    }

    /// Where the chassis is.
    pub fn chassis_position(&self) -> (r: Vector)
        requires
            self.wf(),
        ensures
            r == (Vector { x: self.state@[0], y: self.dynamics.lateral, z: self.state@[2] }),
    {
        Vector::new(self.state[0], self.dynamics.lateral, self.state[2])
    }

    /// Forward speed of the chassis.
    pub fn forward_speed(&self) -> (r: i64)
        requires
            self.wf(),
        ensures
            r == self.state@[1],
    {
        self.state[1]
    }

    /// Vertical speed of the chassis.
    pub fn vertical_speed(&self) -> (r: i64)
        requires
            self.wf(),
        ensures
            r == self.state@[3],
    {
        self.state[3]
    }

    /// Suspension extension of corner `i`.
    pub fn suspension_extension(&self, i: usize) -> (r: i64)
        requires
            self.wf(),
            i < 4,
        ensures
            r == self.state@[4 + 5 * i],
    {
        self.state[4 + 5 * i]
    }

    /// Spin rate of the wheel of corner `i`.
    pub fn wheel_speed(&self, i: usize) -> (r: i64)
        requires
            self.wf(),
            i < 4,
        ensures
            r == self.state@[4 + 5 * i + 3],
    {
        self.state[4 + 5 * i + 3]
    }
}

} // verus!
