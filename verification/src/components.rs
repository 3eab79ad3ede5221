//! Discrete parts of the spacecraft components: drive model selection and
//! the spacecraft marker.

use vstd::prelude::*;
use crate::text::str_eq;

verus! {

/// Which dynamical model governs a propulsion stack.
#[derive(Debug, Clone, Copy, PartialEq, Eq, Structural)]
pub enum PropulsionType {
    /// Chemical / ion engines; mass roughly constant over a tick.
    Conventional,
    /// High-thrust, high-Isp continuous drive; mass and inertia change every tick.
    Brachistochrone,
}

/// Wire name of a drive model.
pub open spec fn drive_name_spec(d: PropulsionType) -> Seq<char> {
    match d {
        PropulsionType::Conventional => "conventional"@,
        PropulsionType::Brachistochrone => "brachistochrone"@,
    }
}

/// Drive model selected by operator text: `"brachistochrone"`, `"brach"` and
/// `"epstein"` select the continuous drive, anything else the conventional one.
pub open spec fn parse_drive_spec(s: Seq<char>) -> PropulsionType {
    if s == "brachistochrone"@ || s == "brach"@ || s == "epstein"@ {
        PropulsionType::Brachistochrone
    } else {
        PropulsionType::Conventional
    }
}

impl PropulsionType {
    /// Wire name used in telemetry.
    pub fn name(&self) -> (s: &'static str)
        ensures
            s@ == drive_name_spec(*self),
    {
        match self {
            PropulsionType::Conventional => "conventional",
            PropulsionType::Brachistochrone => "brachistochrone",
        }
    }

    /// Parse operator text into a drive model.
    pub fn parse(s: &str) -> (d: PropulsionType)
        ensures
            d == parse_drive_spec(s@),
    {
        if str_eq(s, "brachistochrone") || str_eq(s, "brach") || str_eq(s, "epstein") {
            PropulsionType::Brachistochrone
        } else {
            PropulsionType::Conventional
        }
    }
}

/// Parsing the telemetry name of a drive model yields that model again.
pub proof fn lemma_drive_name_round_trip(d: PropulsionType)
    ensures
        parse_drive_spec(drive_name_spec(d)) == d,
{
    reveal_strlit("conventional");
    reveal_strlit("brachistochrone");
    reveal_strlit("brach");
    reveal_strlit("epstein");
    if d == PropulsionType::Conventional {
        assert("conventional"@.len() != "brachistochrone"@.len());
        assert("conventional"@.len() != "brach"@.len());
        assert("conventional"@.len() != "epstein"@.len());
    }
}

/// Marks an entity as the spacecraft tracked by the dashboard.
#[derive(Debug, Clone, Copy, PartialEq, Eq, Structural)]
pub struct Spacecraft {
    pub id: u32,
}

impl Default for Spacecraft {
    fn default() -> (s: Self)
        ensures
            s.id == 0,
    {
        Spacecraft { id: 0 }
    }
}

/// The telemetry names are "conventional" and "brachistochrone"; exactly
/// the texts "brachistochrone", "brach" and "epstein" select the continuous
/// drive, and every other text the conventional one.
pub proof fn lemma_drive_wire(d: PropulsionType, s: Seq<char>)
    ensures
        d == PropulsionType::Conventional ==> drive_name_spec(d) == "conventional"@,
        d == PropulsionType::Brachistochrone ==> drive_name_spec(d) == "brachistochrone"@,
        parse_drive_spec(s) == PropulsionType::Brachistochrone
            <==> (s == "brachistochrone"@ || s == "brach"@ || s == "epstein"@),
        parse_drive_spec(s) == PropulsionType::Conventional
            <==> !(s == "brachistochrone"@ || s == "brach"@ || s == "epstein"@),
{
}

} // verus!
