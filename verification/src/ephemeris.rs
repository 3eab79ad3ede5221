//! Body identifiers, the default body roster, and the bookkeeping of the
//! ephemeris cache (which bodies are catalogued, which states are known, and
//! in what order a refresh propagates them).
//!
//! Orbital propagation and gravity are floating-point work done by the host
//! on the physical parameters and states this table carries for it.

pub mod naif;
pub mod roster;
pub mod table;
