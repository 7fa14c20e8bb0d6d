//! Supervised repetition of an external command.
//!
//! The core is an execute/sleep state machine: it runs a configured command,
//! waits a configured interval, and repeats, stopping once an optional
//! execution limit is reached. Launch failures are diagnosed on the error
//! stream and never abort the cycle. The state machine, its components and
//! their contracts live here; the process launching, the sleeping and the
//! argument parsing are a driver's business.

pub mod app;
pub mod components;
pub mod config;
