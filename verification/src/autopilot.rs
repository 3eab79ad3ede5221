//! Decision logic of the rendezvous autopilot: which lifecycle phase a tick
//! ends in and what the autopilot does to the drive.
//!
//! The guidance arithmetic itself (ZEM/ZEV acceleration, time-to-go growth,
//! intercept prediction) works on floating-point state and is evaluated by
//! the host; it reduces each tick to the boolean facts taken here.

use vstd::prelude::*;

verus! {

/// Lifecycle of a single transit under autopilot control.
#[derive(Debug, Clone, Copy, PartialEq, Eq, Structural)]
pub enum AutopilotPhase {
    /// Autopilot disengaged; the ship is hand-flown.
    Idle,
    /// Accelerating toward the predicted intercept.
    Boost,
    /// Decelerating against the relative velocity.
    Brake,
    /// Within the arrival tolerance; thrust commanded to zero.
    Arrived,
    /// Engaged but the target is missing or the geometry is degenerate.
    Hold,
}

/// Wire name of a phase.
pub open spec fn phase_name_spec(p: AutopilotPhase) -> Seq<char> {
    match p {
        AutopilotPhase::Idle => "idle"@,
        AutopilotPhase::Boost => "boost"@,
        AutopilotPhase::Brake => "brake"@,
        AutopilotPhase::Arrived => "arrived"@,
        AutopilotPhase::Hold => "hold"@,
    }
}

/// Wire name of a phase, as reported in telemetry.
pub fn phase_str(p: AutopilotPhase) -> (s: &'static str)
    ensures
        s@ == phase_name_spec(p),
{
    match p {
        AutopilotPhase::Idle => "idle",
        AutopilotPhase::Boost => "boost",
        AutopilotPhase::Brake => "brake",
        AutopilotPhase::Arrived => "arrived",
        AutopilotPhase::Hold => "hold",
    }
}

/// Distinct phases have distinct wire names.
pub proof fn lemma_phase_names_distinct(p: AutopilotPhase, q: AutopilotPhase)
    requires
        p != q,
    ensures
        phase_name_spec(p) != phase_name_spec(q),
{
    reveal_strlit("idle");
    reveal_strlit("boost");
    reveal_strlit("brake");
    reveal_strlit("arrived");
    reveal_strlit("hold");
    assert("boost"@[4] != "brake"@[4]);
    assert("idle"@[0] != "hold"@[0]);
}

/// What one autopilot tick does, before any steering arithmetic.
#[derive(Debug, Clone, Copy, PartialEq, Eq, Structural)]
pub enum AutopilotStep {
    /// Disengaged: phase Idle, command cleared, drive left to the operator.
    Disengaged,
    /// No spacecraft: phase Hold, command cleared.
    NoShip,
    /// Phase Hold, command cleared and the drive's thrust zeroed.
    HoldAndCut,
    /// Inside the arrival tolerance: phase Arrived, ETA zero, thrust zeroed.
    Arrive,
    /// Guidance runs and steers the ship (phase Boost or Brake).
    Steer,
}

/// The facts a tick's decision depends on.
#[derive(Debug, Clone, Copy, PartialEq, Eq, Structural)]
pub struct AutopilotFacts {
    pub engaged: bool,
    pub has_ship: bool,
    pub has_ephemeris: bool,
    /// The mission's target body, if one is set.
    pub target: Option<i32>,
    /// The ephemeris knows the target body's state.
    pub target_known: bool,
    /// Range and relative speed are both inside the arrival tolerance.
    pub within_tolerance: bool,
    /// The commanded proper acceleration is usable (not ~0).
    pub accel_available: bool,
}

/// Decision of a tick from its facts, checked in the order the system does.
pub open spec fn autopilot_step_spec(f: AutopilotFacts) -> AutopilotStep {
    if !f.engaged {
        AutopilotStep::Disengaged
    } else if !f.has_ship {
        AutopilotStep::NoShip
    } else if !f.has_ephemeris || f.target is None || !f.target_known {
        AutopilotStep::HoldAndCut
    } else if f.within_tolerance {
        AutopilotStep::Arrive
    } else if !f.accel_available {
        AutopilotStep::HoldAndCut
    } else {
        AutopilotStep::Steer
    }
}

/// Decide what this tick of the autopilot does.
pub fn autopilot_step(f: AutopilotFacts) -> (s: AutopilotStep)
    ensures
        s == autopilot_step_spec(f),
{
    if !f.engaged {
        return AutopilotStep::Disengaged;
    }
    if !f.has_ship {
        return AutopilotStep::NoShip;
    }
    if !f.has_ephemeris || f.target.is_none() || !f.target_known {
        return AutopilotStep::HoldAndCut;
    }
    if f.within_tolerance {
        return AutopilotStep::Arrive;
    }
    if !f.accel_available {
        return AutopilotStep::HoldAndCut;
    }
    AutopilotStep::Steer
}

impl AutopilotStep {
    /// Phase reported by the step when it does not steer.
    pub open spec fn fixed_phase(self) -> Option<AutopilotPhase> {
        match self {
            AutopilotStep::Disengaged => Some(AutopilotPhase::Idle),
            AutopilotStep::NoShip => Some(AutopilotPhase::Hold),
            AutopilotStep::HoldAndCut => Some(AutopilotPhase::Hold),
            AutopilotStep::Arrive => Some(AutopilotPhase::Arrived),
            AutopilotStep::Steer => None,
        }
    }

    /// The step zeroes the drive's thrust command.
    pub open spec fn cuts_thrust(self) -> bool {
        self == AutopilotStep::HoldAndCut || self == AutopilotStep::Arrive
    }

    /// Phase reported by a non-steering step; `None` for `Steer`.
    pub fn phase(&self) -> (p: Option<AutopilotPhase>)
        ensures
            p == self.fixed_phase(),
    {
        match self {
            AutopilotStep::Disengaged => Some(AutopilotPhase::Idle),
            AutopilotStep::NoShip => Some(AutopilotPhase::Hold),
            AutopilotStep::HoldAndCut => Some(AutopilotPhase::Hold),
            AutopilotStep::Arrive => Some(AutopilotPhase::Arrived),
            AutopilotStep::Steer => None,
        }
    }

    /// Whether the step zeroes the drive's thrust command.
    pub fn cut_thrust(&self) -> (b: bool)
        ensures
            b == self.cuts_thrust(),
    {
        match self {
            AutopilotStep::HoldAndCut | AutopilotStep::Arrive => true,
            _ => false,
        }
    }
}

/// Phase of a steering tick: a negligible command reads as Boost; otherwise
/// Brake when the command points mostly against the relative velocity.
pub open spec fn steer_phase_spec(command_negligible: bool, braking_dominant: bool) -> AutopilotPhase {
    if !command_negligible && braking_dominant {
        AutopilotPhase::Brake
    } else {
        AutopilotPhase::Boost
    }
}

/// Classify a steering tick as Boost or Brake.
pub fn steer_phase(command_negligible: bool, braking_dominant: bool) -> (p: AutopilotPhase)
    ensures
        p == steer_phase_spec(command_negligible, braking_dominant),
{
    if command_negligible {
        AutopilotPhase::Boost
    } else if braking_dominant {
        AutopilotPhase::Brake
    } else {
        AutopilotPhase::Boost
    }
}

/// A disengaged autopilot reports Idle and leaves the drive alone, whatever
/// else holds.
pub proof fn lemma_disengaged_is_idle(f: AutopilotFacts)
    requires
        !f.engaged,
    ensures
        autopilot_step_spec(f).fixed_phase() == Some(AutopilotPhase::Idle),
        !autopilot_step_spec(f).cuts_thrust(),
{
}

/// An engaged autopilot with a ship but no target holds and cuts thrust.
pub proof fn lemma_missing_target_holds(f: AutopilotFacts)
    requires
        f.engaged,
        f.has_ship,
        f.target is None,
    ensures
        autopilot_step_spec(f).fixed_phase() == Some(AutopilotPhase::Hold),
        autopilot_step_spec(f).cuts_thrust(),
{
}

/// Every tick ends in exactly the phases the wire protocol names: a steering
/// tick in Boost or Brake, any other tick in Idle, Hold or Arrived.
pub proof fn lemma_step_phases(f: AutopilotFacts, command_negligible: bool, braking_dominant: bool)
    ensures
        autopilot_step_spec(f) == AutopilotStep::Steer ==> {
            let p = steer_phase_spec(command_negligible, braking_dominant);
            p == AutopilotPhase::Boost || p == AutopilotPhase::Brake
        },
        autopilot_step_spec(f) != AutopilotStep::Steer ==> {
            let p = autopilot_step_spec(f).fixed_phase();
            p == Some(AutopilotPhase::Idle) || p == Some(AutopilotPhase::Hold)
                || p == Some(AutopilotPhase::Arrived)
        },
{
}

/// The telemetry names of the phases are the lower-case phase names.
pub proof fn lemma_phase_wire_names(p: AutopilotPhase)
    ensures
        p == AutopilotPhase::Idle ==> phase_name_spec(p) == "idle"@,
        p == AutopilotPhase::Boost ==> phase_name_spec(p) == "boost"@,
        p == AutopilotPhase::Brake ==> phase_name_spec(p) == "brake"@,
        p == AutopilotPhase::Arrived ==> phase_name_spec(p) == "arrived"@,
        p == AutopilotPhase::Hold ==> phase_name_spec(p) == "hold"@,
{
}

/// What a tick decides, outcome by outcome, in terms of its facts. A tick
/// is ready to guide when it is engaged, has a ship and an ephemeris, and
/// its target is set and known. A ready tick inside the arrival tolerance
/// arrives whether or not thrust is available; outside it, it steers when
/// thrust is available and holds otherwise. An engaged tick that is not
/// ready holds (cutting thrust when there is a ship to cut it on).
pub proof fn lemma_step_outcomes(f: AutopilotFacts)
    ensures
        ({
            let ready = f.engaged && f.has_ship && f.has_ephemeris && f.target is Some && f.target_known;
            let s = autopilot_step_spec(f);
            &&& (s == AutopilotStep::Disengaged <==> !f.engaged)
            &&& (s == AutopilotStep::NoShip <==> f.engaged && !f.has_ship)
            &&& (s == AutopilotStep::Arrive <==> ready && f.within_tolerance)
            &&& (s == AutopilotStep::Steer <==> ready && !f.within_tolerance && f.accel_available)
            &&& (s == AutopilotStep::HoldAndCut <==> f.engaged && f.has_ship
                    && (!ready || (!f.within_tolerance && !f.accel_available)))
        }),
{
}

/// A tick within tolerance of a known target arrives, whatever thrust is
/// available: it reports Arrived and zeroes the thrust.
pub proof fn lemma_arrival_ignores_accel(f: AutopilotFacts)
    requires
        f.engaged,
        f.has_ship,
        f.has_ephemeris,
        f.target is Some,
        f.target_known,
        f.within_tolerance,
    ensures
        autopilot_step_spec(f) == AutopilotStep::Arrive,
        autopilot_step_spec(AutopilotFacts { accel_available: !f.accel_available, ..f }) == autopilot_step_spec(f),
        autopilot_step_spec(f).fixed_phase() == Some(AutopilotPhase::Arrived),
        autopilot_step_spec(f).cuts_thrust(),
{
}

/// What each step reports and does to the drive: only holding with a ship
/// and arriving zero the thrust; only steering leaves the phase to guidance.
pub proof fn lemma_step_effects(s: AutopilotStep)
    ensures
        s.fixed_phase() is None <==> s == AutopilotStep::Steer,
        s == AutopilotStep::Disengaged ==> s.fixed_phase() == Some(AutopilotPhase::Idle) && !s.cuts_thrust(),
        s == AutopilotStep::NoShip ==> s.fixed_phase() == Some(AutopilotPhase::Hold) && !s.cuts_thrust(),
        s == AutopilotStep::HoldAndCut ==> s.fixed_phase() == Some(AutopilotPhase::Hold) && s.cuts_thrust(),
        s == AutopilotStep::Arrive ==> s.fixed_phase() == Some(AutopilotPhase::Arrived) && s.cuts_thrust(),
        s == AutopilotStep::Steer ==> !s.cuts_thrust(),
{
}

/// A steering tick brakes exactly when its command is not negligible and
/// points mostly against the relative velocity; otherwise it boosts.
pub proof fn lemma_steer_brakes_only_against_velocity(command_negligible: bool, braking_dominant: bool)
    ensures
        steer_phase_spec(command_negligible, braking_dominant) == AutopilotPhase::Brake
            <==> !command_negligible && braking_dominant,
        steer_phase_spec(command_negligible, braking_dominant) != AutopilotPhase::Brake
            ==> steer_phase_spec(command_negligible, braking_dominant) == AutopilotPhase::Boost,
{
}

} // verus!
