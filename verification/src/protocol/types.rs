//! Control state, commands and command effects.
//!
//! Commands that carry floating-point payloads (warp factor, thrust vector,
//! attitude rate, thrust magnitude, commanded acceleration, sensor sigmas,
//! filter seed sigmas) appear here without those payloads: the host clamps
//! them at zero and stores them beside the state this module governs.

use vstd::prelude::*;
use crate::autopilot::AutopilotPhase;
use crate::components::PropulsionType;
use crate::ephemeris::naif;
use crate::mission::Mission;
use crate::mode::SimMode;
use crate::thrust_controller::{ThrustController, ThrustMode};

verus! {

/// Operator / dashboard command.
#[derive(Debug)]
#[allow(inconsistent_fields)]
pub enum ControlCommand {
    /// Change the time-warp factor (the factor is applied by the host).
    SetWarp,
    /// Pause or resume the simulation clock.
    SetPaused { paused: bool },
    /// Write a raw body-frame thrust command (vector applied by the host).
    SetThrust,
    /// Switch the drive model by name.
    SetDrive { drive: String },
    /// Set the body-frame angular velocity (vector applied by the host).
    SetAttitudeRate,
    /// Replace both mission endpoints.
    SetMission { source: Option<i32>, target: Option<i32> },
    /// Re-stage the spacecraft in orbit around the mission's source body.
    StageAtSource,
    /// Select the operator thrust mode by name (and body id for body modes).
    SetThrustMode { mode: String, body: Option<i32> },
    /// Set the operator thrust magnitude (value applied by the host).
    SetThrustMagnitude,
    /// Engage or disengage the rendezvous autopilot.
    SetAutopilot { engaged: bool },
    /// Update the sensor switches; `None` leaves a switch as it is.
    SetSensorConfig { enabled: Option<bool>, light_time_delay: Option<bool> },
    /// Switch operating mode by name.
    SetMode { mode: String },
    /// One-shot mission kickoff: update the endpoints that are given, enter
    /// Mission mode, stage at the source and engage the autopilot.
    StartMission { source: Option<i32>, target: Option<i32> },
    /// Enable or disable the onboard navigation filter.
    SetNavFilter { enabled: bool },
    /// Rebuild the default scenario.
    Reset,
}

/// The discrete world state that operator commands read and write.
#[derive(Debug, Clone, Copy, PartialEq, Eq, Structural)]
pub struct ControlState {
    pub mission: Mission,
    pub mode: SimMode,
    pub autopilot_engaged: bool,
    pub autopilot_phase: AutopilotPhase,
    pub paused: bool,
    pub thrust: ThrustController,
    pub sensors_enabled: bool,
    pub light_time_delay: bool,
    pub nav_enabled: bool,
    pub nav_initialized: bool,
}

/// Control state of a freshly built default scenario: Earth → Mars mission,
/// Sandbox mode, autopilot disengaged, clock running, thrust mode off,
/// sensors on without light-time delay, navigation filter off.
pub open spec fn default_scenario_spec() -> ControlState {
    ControlState {
        mission: Mission { source_body: Some(naif::EARTH), target_body: Some(naif::MARS) },
        mode: SimMode::Sandbox,
        autopilot_engaged: false,
        autopilot_phase: AutopilotPhase::Idle,
        paused: false,
        thrust: ThrustController { mode: ThrustMode::Off },
        sensors_enabled: true,
        light_time_delay: false,
        nav_enabled: false,
        nav_initialized: false,
    }
}

impl ControlState {
    /// Control state of a freshly built default scenario.
    pub fn default_scenario() -> (s: Self)
        ensures
            s == default_scenario_spec(),
    {
        ControlState {
            mission: Mission::new(naif::EARTH, naif::MARS),
            mode: SimMode::Sandbox,
            autopilot_engaged: false,
            autopilot_phase: AutopilotPhase::Idle,
            paused: false,
            thrust: ThrustController { mode: ThrustMode::Off },
            sensors_enabled: true,
            light_time_delay: false,
            nav_enabled: false,
            nav_initialized: false,
        }
    }
}

/// What the host must do to the simulated world after a command.
#[derive(Debug, Clone, Copy, PartialEq, Eq, Structural)]
pub struct CommandEffects {
    /// Zero the spacecraft drive's thrust command.
    pub cut_thrust: bool,
    /// Switch the spacecraft drive to this model.
    pub set_drive: Option<PropulsionType>,
    /// Stage the spacecraft in orbit around this body (the mission source).
    pub stage_at: Option<i32>,
    /// Discard the world and rebuild the default scenario and spacecraft.
    pub rebuild: bool,
}

/// No effect on the world beyond the control state.
pub open spec fn no_effects() -> CommandEffects {
    CommandEffects { cut_thrust: false, set_drive: None, stage_at: None, rebuild: false }
}

} // verus!
