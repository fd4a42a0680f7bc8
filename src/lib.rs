//! Vehicle rigid-body and tire-contact physics on fixed-point integers.
//!
//! Every physical quantity is an `i64` counting millionths of its SI unit
//! (micrometres, microseconds, micronewtons, microradians, ...).
//!
//! A tick runs in a fixed order: the driver input is read, suspension, tire,
//! drive and brake forces are evaluated from the state (`dynamics`), and the
//! state is advanced by one Runge-Kutta step (`integrator`). `vehicle`
//! derives a car's constants from a few tunable values, `terrain` answers
//! where a point lies below the ground, and `simulation` ties them together.

pub mod fixed;
pub mod drive;
pub mod vehicle;
pub mod suspension;
pub mod terrain;
pub mod dynamics;
pub mod integrator;
pub mod simulation;
