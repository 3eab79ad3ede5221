//! Operator-facing thrust controller: the high-level thrust mode, its wire
//! names, and how a mode resolves to a thrust aim each tick.

use vstd::prelude::*;
use crate::text::str_eq;
use crate::mission::Mission;

verus! {

/// High-level thrust direction selector.
#[derive(Debug, Clone, Copy, PartialEq, Eq, Structural)]
pub enum ThrustMode {
    /// Engine off; raw thrust commands are honoured as written.
    Off,
    /// Push along body +x without slewing.
    BodyX,
    /// Burn along the inertial velocity.
    Prograde,
    /// Burn against the inertial velocity.
    Retrograde,
    /// Point at the mission target and burn.
    TowardTarget,
    /// Burn away from the mission target.
    AwayFromTarget,
    /// Point at the mission source and burn.
    TowardSource,
    /// Burn away from the mission source.
    AwayFromSource,
    /// Point at a specific NAIF body.
    TowardBody(i32),
    /// Burn away from a specific NAIF body.
    AwayFromBody(i32),
}

/// Mode-selection part of the thrust controller. The commanded magnitude
/// (Newtons) is kept by the host beside it.
#[derive(Debug, Clone, Copy, PartialEq, Eq, Structural)]
pub struct ThrustController {
    pub mode: ThrustMode,
}

impl Default for ThrustController {
    fn default() -> (c: Self)
        ensures
            c.mode == ThrustMode::Off,
    {
        ThrustController { mode: ThrustMode::Off }
    }
}

/// Wire name of a mode.
pub open spec fn thrust_mode_name_spec(m: ThrustMode) -> Seq<char> {
    match m {
        ThrustMode::Off => "off"@,
        ThrustMode::BodyX => "body_x"@,
        ThrustMode::Prograde => "prograde"@,
        ThrustMode::Retrograde => "retrograde"@,
        ThrustMode::TowardTarget => "toward_target"@,
        ThrustMode::AwayFromTarget => "away_from_target"@,
        ThrustMode::TowardSource => "toward_source"@,
        ThrustMode::AwayFromSource => "away_from_source"@,
        ThrustMode::TowardBody(_) => "toward_body"@,
        ThrustMode::AwayFromBody(_) => "away_from_body"@,
    }
}

/// Body a mode is bound to by id, if any.
pub open spec fn thrust_mode_body_spec(m: ThrustMode) -> Option<i32> {
    match m {
        ThrustMode::TowardBody(id) => Some(id),
        ThrustMode::AwayFromBody(id) => Some(id),
        _ => None,
    }
}

/// Mode selected by a wire name and an optional body id. Unknown names select
/// `Off`; a body-bound mode without a body id binds to body 0.
pub open spec fn parse_thrust_mode_spec(s: Seq<char>, body: Option<i32>) -> ThrustMode {
    let id = match body { Some(b) => b, None => 0i32 };
    if s == "off"@ {
        ThrustMode::Off
    } else if s == "body_x"@ || s == "body"@ {
        ThrustMode::BodyX
    } else if s == "prograde"@ {
        ThrustMode::Prograde
    } else if s == "retrograde"@ {
        ThrustMode::Retrograde
    } else if s == "toward_target"@ {
        ThrustMode::TowardTarget
    } else if s == "away_from_target"@ {
        ThrustMode::AwayFromTarget
    } else if s == "toward_source"@ {
        ThrustMode::TowardSource
    } else if s == "away_from_source"@ {
        ThrustMode::AwayFromSource
    } else if s == "toward_body"@ {
        ThrustMode::TowardBody(id)
    } else if s == "away_from_body"@ {
        ThrustMode::AwayFromBody(id)
    } else {
        ThrustMode::Off
    }
}

impl ThrustController {
    /// Parse a wire mode name (and the body id for body-bound modes).
    pub fn parse_mode(mode: &str, body: Option<i32>) -> (m: ThrustMode)
        ensures
            m == parse_thrust_mode_spec(mode@, body),
    {
        let id: i32 = match body {
            Some(b) => b,
            None => 0,
        };
        if str_eq(mode, "off") {
            ThrustMode::Off
        } else if str_eq(mode, "body_x") || str_eq(mode, "body") {
            ThrustMode::BodyX
        } else if str_eq(mode, "prograde") {
            ThrustMode::Prograde
        } else if str_eq(mode, "retrograde") {
            ThrustMode::Retrograde
        } else if str_eq(mode, "toward_target") {
            ThrustMode::TowardTarget
        } else if str_eq(mode, "away_from_target") {
            ThrustMode::AwayFromTarget
        } else if str_eq(mode, "toward_source") {
            ThrustMode::TowardSource
        } else if str_eq(mode, "away_from_source") {
            ThrustMode::AwayFromSource
        } else if str_eq(mode, "toward_body") {
            ThrustMode::TowardBody(id)
        } else if str_eq(mode, "away_from_body") {
            ThrustMode::AwayFromBody(id)
        } else {
            ThrustMode::Off
        }
    }

    /// Wire name of the current mode.
    pub fn mode_str(&self) -> (s: &'static str)
        ensures
            s@ == thrust_mode_name_spec(self.mode),
    {
        match self.mode {
            ThrustMode::Off => "off",
            ThrustMode::BodyX => "body_x",
            ThrustMode::Prograde => "prograde",
            ThrustMode::Retrograde => "retrograde",
            ThrustMode::TowardTarget => "toward_target",
            ThrustMode::AwayFromTarget => "away_from_target",
            ThrustMode::TowardSource => "toward_source",
            ThrustMode::AwayFromSource => "away_from_source",
            ThrustMode::TowardBody(_) => "toward_body",
            ThrustMode::AwayFromBody(_) => "away_from_body",
        }
    }

    /// Body id the current mode is bound to (body-bound modes only).
    pub fn target_body(&self) -> (b: Option<i32>)
        ensures
            b == thrust_mode_body_spec(self.mode),
    {
        match self.mode {
            ThrustMode::TowardBody(id) => Some(id),
            ThrustMode::AwayFromBody(id) => Some(id),
            _ => None,
        }
    }
}

/// Reading back the wire name and bound body of a mode yields the same mode.
pub proof fn lemma_thrust_mode_round_trip(m: ThrustMode)
    ensures
        parse_thrust_mode_spec(thrust_mode_name_spec(m), thrust_mode_body_spec(m)) == m,
{
    reveal_strlit("off");
    reveal_strlit("body_x");
    reveal_strlit("body");
    reveal_strlit("prograde");
    reveal_strlit("retrograde");
    reveal_strlit("toward_target");
    reveal_strlit("away_from_target");
    reveal_strlit("toward_source");
    reveal_strlit("away_from_source");
    reveal_strlit("toward_body");
    reveal_strlit("away_from_body");
    let s = thrust_mode_name_spec(m);
    match m {
        ThrustMode::Off => {
        }
        ThrustMode::BodyX => {
            assert(s.len() != "off"@.len());
        }
        ThrustMode::Prograde => {
            assert(s.len() != "off"@.len());
            assert(s.len() != "body_x"@.len());
            assert(s.len() != "body"@.len());
        }
        ThrustMode::Retrograde => {
            assert(s.len() != "off"@.len());
            assert(s.len() != "body_x"@.len());
            assert(s.len() != "body"@.len());
            assert(s.len() != "prograde"@.len());
        }
        ThrustMode::TowardTarget => {
            assert(s.len() != "off"@.len());
            assert(s.len() != "body_x"@.len());
            assert(s.len() != "body"@.len());
            assert(s.len() != "prograde"@.len());
            assert(s.len() != "retrograde"@.len());
        }
        ThrustMode::AwayFromTarget => {
            assert(s.len() != "off"@.len());
            assert(s.len() != "body_x"@.len());
            assert(s.len() != "body"@.len());
            assert(s.len() != "prograde"@.len());
            assert(s.len() != "retrograde"@.len());
            assert(s.len() != "toward_target"@.len());
        }
        ThrustMode::TowardSource => {
            assert(s.len() != "off"@.len());
            assert(s.len() != "body_x"@.len());
            assert(s.len() != "body"@.len());
            assert(s.len() != "prograde"@.len());
            assert(s.len() != "retrograde"@.len());
            assert(s[7] != "toward_target"@[7]);
            assert(s.len() != "away_from_target"@.len());
        }
        ThrustMode::AwayFromSource => {
            assert(s.len() != "off"@.len());
            assert(s.len() != "body_x"@.len());
            assert(s.len() != "body"@.len());
            assert(s.len() != "prograde"@.len());
            assert(s.len() != "retrograde"@.len());
            assert(s.len() != "toward_target"@.len());
            assert(s[10] != "away_from_target"@[10]);
            assert(s.len() != "toward_source"@.len());
        }
        ThrustMode::TowardBody(_) => {
            assert(s.len() != "off"@.len());
            assert(s.len() != "body_x"@.len());
            assert(s.len() != "body"@.len());
            assert(s.len() != "prograde"@.len());
            assert(s.len() != "retrograde"@.len());
            assert(s.len() != "toward_target"@.len());
            assert(s.len() != "away_from_target"@.len());
            assert(s.len() != "toward_source"@.len());
            assert(s.len() != "away_from_source"@.len());
        }
        ThrustMode::AwayFromBody(_) => {
            assert(s.len() != "off"@.len());
            assert(s.len() != "body_x"@.len());
            assert(s.len() != "body"@.len());
            assert(s.len() != "prograde"@.len());
            assert(s.len() != "retrograde"@.len());
            assert(s.len() != "toward_target"@.len());
            assert(s.len() != "away_from_target"@.len());
            assert(s.len() != "toward_source"@.len());
            assert(s.len() != "away_from_source"@.len());
            assert(s.len() != "toward_body"@.len());
        }
    }
}

/// How the controller wants to thrust this tick.
#[derive(Debug, Clone, Copy, PartialEq, Eq, Structural)]
pub enum ThrustAim {
    /// Leave the drive as it is.
    HandsOff,
    /// Command thrust along body +x without slewing.
    AlongBodyX,
    /// Slew to and burn along the inertial velocity.
    AlongVelocity,
    /// Slew to and burn against the inertial velocity.
    AgainstVelocity,
    /// Slew toward (or, with `away`, away from) a body and burn.
    AtBody { id: i32, away: bool },
}

/// Aim selected by a mode for a given mission, when the controller has
/// authority (autopilot disengaged) and a spacecraft exists.
pub open spec fn thrust_aim_spec(
    mode: ThrustMode,
    autopilot_engaged: bool,
    has_ship: bool,
    mission: Mission,
) -> ThrustAim {
    if autopilot_engaged || !has_ship {
        ThrustAim::HandsOff
    } else {
        match mode {
            ThrustMode::Off => ThrustAim::HandsOff,
            ThrustMode::BodyX => ThrustAim::AlongBodyX,
            ThrustMode::Prograde => ThrustAim::AlongVelocity,
            ThrustMode::Retrograde => ThrustAim::AgainstVelocity,
            ThrustMode::TowardTarget => match mission.target_body {
                Some(id) => ThrustAim::AtBody { id, away: false },
                None => ThrustAim::HandsOff,
            },
            ThrustMode::AwayFromTarget => match mission.target_body {
                Some(id) => ThrustAim::AtBody { id, away: true },
                None => ThrustAim::HandsOff,
            },
            ThrustMode::TowardSource => match mission.source_body {
                Some(id) => ThrustAim::AtBody { id, away: false },
                None => ThrustAim::HandsOff,
            },
            ThrustMode::AwayFromSource => match mission.source_body {
                Some(id) => ThrustAim::AtBody { id, away: true },
                None => ThrustAim::HandsOff,
            },
            ThrustMode::TowardBody(id) => ThrustAim::AtBody { id, away: false },
            ThrustMode::AwayFromBody(id) => ThrustAim::AtBody { id, away: true },
        }
    }
}

/// Resolve the controller's mode into this tick's aim. An engaged autopilot
/// has final say over the drive, so the controller then keeps its hands off.
pub fn resolve_aim(
    ctrl: &ThrustController,
    autopilot_engaged: bool,
    has_ship: bool,
    mission: &Mission,
) -> (aim: ThrustAim)
    ensures
        aim == thrust_aim_spec(ctrl.mode, autopilot_engaged, has_ship, *mission),
{
    if autopilot_engaged || !has_ship {
        return ThrustAim::HandsOff;
    }
    match ctrl.mode {
        ThrustMode::Off => ThrustAim::HandsOff,
        ThrustMode::BodyX => ThrustAim::AlongBodyX,
        ThrustMode::Prograde => ThrustAim::AlongVelocity,
        ThrustMode::Retrograde => ThrustAim::AgainstVelocity,
        ThrustMode::TowardTarget => match mission.target_body {
            Some(id) => ThrustAim::AtBody { id, away: false },
            None => ThrustAim::HandsOff,
        },
        ThrustMode::AwayFromTarget => match mission.target_body {
            Some(id) => ThrustAim::AtBody { id, away: true },
            None => ThrustAim::HandsOff,
        },
        ThrustMode::TowardSource => match mission.source_body {
            Some(id) => ThrustAim::AtBody { id, away: false },
            None => ThrustAim::HandsOff,
        },
        ThrustMode::AwayFromSource => match mission.source_body {
            Some(id) => ThrustAim::AtBody { id, away: true },
            None => ThrustAim::HandsOff,
        },
        ThrustMode::TowardBody(id) => ThrustAim::AtBody { id, away: false },
        ThrustMode::AwayFromBody(id) => ThrustAim::AtBody { id, away: true },
    }
}

/// While the autopilot is engaged, operator thrust modes never touch the drive.
pub proof fn lemma_autopilot_has_authority(mode: ThrustMode, has_ship: bool, mission: Mission)
    ensures
        thrust_aim_spec(mode, true, has_ship, mission) == ThrustAim::HandsOff,
{
}

/// A body-relative aim always points at the body the mode names, in the
/// direction the mode names.
pub proof fn lemma_aim_follows_mode(mode: ThrustMode, mission: Mission)
    ensures
        match thrust_aim_spec(mode, false, true, mission) {
            ThrustAim::AtBody { id, away } => {
                &&& (mode == ThrustMode::TowardTarget || mode == ThrustMode::AwayFromTarget)
                    ==> mission.target_body == Some(id)
                &&& (mode == ThrustMode::TowardSource || mode == ThrustMode::AwayFromSource)
                    ==> mission.source_body == Some(id)
                &&& away <==> (mode == ThrustMode::AwayFromTarget
                    || mode == ThrustMode::AwayFromSource || mode is AwayFromBody)
            },
            _ => true,
        },
{
}

/// With authority over the drive (autopilot disengaged, ship present) each
/// mode aims where its name says: Off leaves the drive alone, BodyX pushes
/// along body +x, Prograde burns along the inertial velocity and Retrograde
/// against it, and the body modes aim at (or away from) the named body, the
/// mission's target or source, holding off when that endpoint is unset.
pub proof fn lemma_aim_with_authority(mode: ThrustMode, mission: Mission)
    ensures
        ({
            let aim = thrust_aim_spec(mode, false, true, mission);
            &&& mode == ThrustMode::Off ==> aim == ThrustAim::HandsOff
            &&& mode == ThrustMode::BodyX ==> aim == ThrustAim::AlongBodyX
            &&& mode == ThrustMode::Prograde ==> aim == ThrustAim::AlongVelocity
            &&& mode == ThrustMode::Retrograde ==> aim == ThrustAim::AgainstVelocity
            &&& mode matches ThrustMode::TowardBody(id) ==> aim == (ThrustAim::AtBody { id, away: false })
            &&& mode matches ThrustMode::AwayFromBody(id) ==> aim == (ThrustAim::AtBody { id, away: true })
            &&& mode == ThrustMode::TowardTarget ==> aim == match mission.target_body {
                Some(id) => ThrustAim::AtBody { id, away: false },
                None => ThrustAim::HandsOff,
            }
            &&& mode == ThrustMode::AwayFromTarget ==> aim == match mission.target_body {
                Some(id) => ThrustAim::AtBody { id, away: true },
                None => ThrustAim::HandsOff,
            }
            &&& mode == ThrustMode::TowardSource ==> aim == match mission.source_body {
                Some(id) => ThrustAim::AtBody { id, away: false },
                None => ThrustAim::HandsOff,
            }
            &&& mode == ThrustMode::AwayFromSource ==> aim == match mission.source_body {
                Some(id) => ThrustAim::AtBody { id, away: true },
                None => ThrustAim::HandsOff,
            }
        }),
{
}

/// Without a spacecraft no mode touches the drive.
pub proof fn lemma_no_ship_hands_off(mode: ThrustMode, autopilot_engaged: bool, mission: Mission)
    ensures
        thrust_aim_spec(mode, autopilot_engaged, false, mission) == ThrustAim::HandsOff,
{
}

/// The wire names of the thrust modes, and the body a mode is bound to.
pub proof fn lemma_thrust_mode_wire_names(m: ThrustMode)
    ensures
        m == ThrustMode::Off ==> thrust_mode_name_spec(m) == "off"@,
        m == ThrustMode::BodyX ==> thrust_mode_name_spec(m) == "body_x"@,
        m == ThrustMode::Prograde ==> thrust_mode_name_spec(m) == "prograde"@,
        m == ThrustMode::Retrograde ==> thrust_mode_name_spec(m) == "retrograde"@,
        m == ThrustMode::TowardTarget ==> thrust_mode_name_spec(m) == "toward_target"@,
        m == ThrustMode::AwayFromTarget ==> thrust_mode_name_spec(m) == "away_from_target"@,
        m == ThrustMode::TowardSource ==> thrust_mode_name_spec(m) == "toward_source"@,
        m == ThrustMode::AwayFromSource ==> thrust_mode_name_spec(m) == "away_from_source"@,
        m is TowardBody ==> thrust_mode_name_spec(m) == "toward_body"@,
        m is AwayFromBody ==> thrust_mode_name_spec(m) == "away_from_body"@,
        m matches ThrustMode::TowardBody(id) ==> thrust_mode_body_spec(m) == Some(id),
        m matches ThrustMode::AwayFromBody(id) ==> thrust_mode_body_spec(m) == Some(id),
        !(m is TowardBody) && !(m is AwayFromBody) ==> thrust_mode_body_spec(m) is None,
{
}

/// The operator's spellings: `"body"` is an alias of `"body_x"`, a body
/// mode binds the given body (body 0 when none is given), and a name that is
/// no mode's selects Off.
pub proof fn lemma_parse_thrust_mode(s: Seq<char>, body: Option<i32>)
    ensures
        s == "body"@ ==> parse_thrust_mode_spec(s, body) == ThrustMode::BodyX,
        s == "toward_body"@ ==> parse_thrust_mode_spec(s, body) == ThrustMode::TowardBody(
            match body { Some(b) => b, None => 0i32 },
        ),
        s == "away_from_body"@ ==> parse_thrust_mode_spec(s, body) == ThrustMode::AwayFromBody(
            match body { Some(b) => b, None => 0i32 },
        ),
        (forall|m: ThrustMode| thrust_mode_name_spec(m) != s) && s != "body"@
            ==> parse_thrust_mode_spec(s, body) == ThrustMode::Off,
{
    reveal_strlit("body");
    reveal_strlit("body_x");
    reveal_strlit("off");
    reveal_strlit("toward_body");
    reveal_strlit("away_from_body");
    reveal_strlit("prograde");
    reveal_strlit("retrograde");
    reveal_strlit("toward_target");
    reveal_strlit("away_from_target");
    reveal_strlit("toward_source");
    reveal_strlit("away_from_source");
    if (forall|m: ThrustMode| thrust_mode_name_spec(m) != s) && s != "body"@ {
        assert(thrust_mode_name_spec(ThrustMode::Off) != s);
        assert(thrust_mode_name_spec(ThrustMode::BodyX) != s);
        assert(thrust_mode_name_spec(ThrustMode::Prograde) != s);
        assert(thrust_mode_name_spec(ThrustMode::Retrograde) != s);
        assert(thrust_mode_name_spec(ThrustMode::TowardTarget) != s);
        assert(thrust_mode_name_spec(ThrustMode::AwayFromTarget) != s);
        assert(thrust_mode_name_spec(ThrustMode::TowardSource) != s);
        assert(thrust_mode_name_spec(ThrustMode::AwayFromSource) != s);
        assert(thrust_mode_name_spec(ThrustMode::TowardBody(0)) != s);
        assert(thrust_mode_name_spec(ThrustMode::AwayFromBody(0)) != s);
    }
    if s == "body"@ {
        assert(s.len() != "off"@.len());
    }
    if s == "toward_body"@ {
        assert(s.len() != "off"@.len());
        assert(s.len() != "body_x"@.len());
        assert(s.len() != "body"@.len());
        assert(s.len() != "prograde"@.len());
        assert(s.len() != "retrograde"@.len());
        assert(s != "toward_target"@) by { assert(s[7] != "toward_target"@[7]); }
        assert(s.len() != "away_from_target"@.len());
        assert(s.len() != "toward_source"@.len());
        assert(s.len() != "away_from_source"@.len());
    }
    if s == "away_from_body"@ {
        assert(s.len() != "off"@.len());
        assert(s.len() != "body_x"@.len());
        assert(s.len() != "body"@.len());
        assert(s.len() != "prograde"@.len());
        assert(s.len() != "retrograde"@.len());
        assert(s.len() != "toward_target"@.len());
        assert(s.len() != "away_from_target"@.len());
        assert(s.len() != "toward_source"@.len());
        assert(s.len() != "away_from_source"@.len());
        assert(s != "toward_body"@) by { assert(s[0] != "toward_body"@[0]); }
    }
}

} // verus!
