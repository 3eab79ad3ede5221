//! Discrete core of the Expanse spacecraft simulator: mission and operating
//! mode bookkeeping, the operator control state machine, guidance phase
//! selection, thrust-aim resolution, deterministic sensor-noise seeding and
//! driver pacing decisions.

pub mod text;
pub mod mission;
pub mod mode;
pub mod components;
pub mod autopilot;
pub mod thrust_controller;
pub mod sensors;
pub mod ephemeris;
pub mod protocol;
pub mod nav;
pub mod runner;
