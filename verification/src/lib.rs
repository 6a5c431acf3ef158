//! Verified core of a proximity-sensing and reactive-actuation node.
//!
//! The node ranges an object with an ultrasonic sensor, fans the readings out
//! to an alarm controller and a telemetry responder through single-slot
//! handoffs, sweeps a positional actuator, and serves the latest reading over
//! a minimal network responder.  This crate holds the verified logic: distance
//! derivation, the handoff discipline, alert levels, pulse plans, and the
//! responder's decisions.  Hardware and network I/O live outside it.

pub mod alarm;
pub mod distance;
pub mod fanout;
pub mod http;
pub mod responder;
pub mod sensor;
pub mod servo;
pub mod textbuf;
