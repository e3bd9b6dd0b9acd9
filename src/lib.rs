//! Closed-loop GPU fan control: a piecewise-linear response curve, a
//! hysteresis gate on temperature changes, and the per-cycle decisions of
//! the control loop. Reading the sensor and driving the fan are left to the
//! caller, which feeds the outcome of each step back in as an event.

pub mod controller;
pub mod curve;
pub mod device;
pub mod hysteresis;
