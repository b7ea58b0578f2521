//! Decision core of a small ground station that brings a vehicle into an
//! offboard hover.
//!
//! The station watches the vehicle's heartbeats, announces itself with
//! heartbeats of its own, and streams a fixed position target once the
//! vehicle reports the offboard flight mode. Everything here is a function
//! from plain values to plain values; the link, the timers and the tasks that
//! drive these functions live with the caller.

pub mod cadence;
pub mod comm;
pub mod dialect;
pub mod flight_mode;
pub mod message;
pub mod phase;
pub mod setpoint;
