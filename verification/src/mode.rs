//! Simulation operating mode: `Sandbox` (operator flies the ship, autopilot
//! silent) or `Mission` (autopilot has authority over the drive).

use vstd::prelude::*;
use crate::text::str_eq;

verus! {

#[derive(Debug, Clone, Copy, PartialEq, Eq, Structural)]
pub enum SimMode {
    Sandbox,
    Mission,
}

impl Default for SimMode {
    fn default() -> (m: Self)
        ensures
            m == SimMode::Sandbox,
    {
        SimMode::Sandbox
    }
}

/// World-level slot holding the current operating mode.
#[derive(Debug, Clone, Copy, PartialEq, Eq, Structural)]
pub struct SimModeState {
    pub mode: SimMode,
}

impl Default for SimModeState {
    fn default() -> (s: Self)
        ensures
            s.mode == SimMode::Sandbox,
    {
        SimModeState { mode: SimMode::Sandbox }
    }
}

/// Wire name of a mode.
pub open spec fn mode_name_spec(m: SimMode) -> Seq<char> {
    match m {
        SimMode::Sandbox => "sandbox"@,
        SimMode::Mission => "mission"@,
    }
}

/// Mode selected by a wire name: exactly `"mission"` selects Mission, any
/// other text selects Sandbox.
pub open spec fn parse_mode_spec(s: Seq<char>) -> SimMode {
    if s == "mission"@ { SimMode::Mission } else { SimMode::Sandbox }
}

impl SimMode {
    /// Wire name (`"sandbox"` / `"mission"`).
    pub fn name(&self) -> (s: &'static str)
        ensures
            s@ == mode_name_spec(*self),
    {
        match self {
            SimMode::Sandbox => "sandbox",
            SimMode::Mission => "mission",
        }
    }

    /// Parse a wire name; unknown names fall back to Sandbox.
    pub fn parse(s: &str) -> (m: SimMode)
        ensures
            m == parse_mode_spec(s@),
    {
        if str_eq(s, "mission") {
            SimMode::Mission
        } else {
            SimMode::Sandbox
        }
    }
}

/// Reading back the wire name of a mode yields the same mode.
pub proof fn lemma_mode_name_round_trip(m: SimMode)
    ensures
        parse_mode_spec(mode_name_spec(m)) == m,
{
    reveal_strlit("sandbox");
    reveal_strlit("mission");
    if m == SimMode::Sandbox {
        assert("sandbox"@[0] != "mission"@[0]);
    }
}

/// The wire names are "sandbox" and "mission", and only the exact text
/// "mission" selects Mission; every other text selects Sandbox.
pub proof fn lemma_mode_wire(m: SimMode, s: Seq<char>)
    ensures
        m == SimMode::Sandbox ==> mode_name_spec(m) == "sandbox"@,
        m == SimMode::Mission ==> mode_name_spec(m) == "mission"@,
        parse_mode_spec(s) == SimMode::Mission <==> s == "mission"@,
        parse_mode_spec(s) == SimMode::Sandbox <==> s != "mission"@,
{
}

} // verus!
