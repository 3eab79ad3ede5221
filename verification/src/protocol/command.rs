//! The transition each operator command makes on the control state, and
//! the world effects it asks of the host.

use vstd::prelude::*;
use crate::autopilot::AutopilotPhase;
use crate::components::{parse_drive_spec, PropulsionType};
use crate::mission::Mission;
use crate::mode::{parse_mode_spec, SimMode};
use crate::thrust_controller::{parse_thrust_mode_spec, ThrustController, ThrustMode};
use super::types::{
    default_scenario_spec, no_effects, CommandEffects, ControlCommand, ControlState,
};

verus! {

/// Endpoint after a partial update: a given value replaces the old one.
pub open spec fn overlay(new: Option<i32>, prev: Option<i32>) -> Option<i32> {
    match new {
        Some(v) => Some(v),
        None => prev,
    }
}

/// Control state after a command.
pub open spec fn next_state(s: ControlState, cmd: ControlCommand) -> ControlState {
    match cmd {
        ControlCommand::SetPaused { paused } => ControlState { paused, ..s },
        ControlCommand::SetMission { source, target } => ControlState {
            mission: Mission { source_body: source, target_body: target },
            ..s
        },
        ControlCommand::SetThrustMode { mode, body } => ControlState {
            thrust: ThrustController { mode: parse_thrust_mode_spec(mode@, body) },
            ..s
        },
        ControlCommand::SetAutopilot { engaged } => ControlState {
            autopilot_engaged: engaged && s.mode == SimMode::Mission,
            autopilot_phase: if engaged { s.autopilot_phase } else { AutopilotPhase::Idle },
            ..s
        },
        ControlCommand::SetSensorConfig { enabled, light_time_delay } => ControlState {
            sensors_enabled: match enabled { Some(v) => v, None => s.sensors_enabled },
            light_time_delay: match light_time_delay { Some(v) => v, None => s.light_time_delay },
            ..s
        },
        ControlCommand::SetMode { mode } => {
            let m = parse_mode_spec(mode@);
            ControlState {
                mode: m,
                autopilot_engaged: if s.mode != m && m == SimMode::Sandbox {
                    false
                } else {
                    s.autopilot_engaged
                },
                ..s
            }
        },
        ControlCommand::StartMission { source, target } => ControlState {
            mission: Mission {
                source_body: overlay(source, s.mission.source_body),
                target_body: overlay(target, s.mission.target_body),
            },
            mode: SimMode::Mission,
            autopilot_engaged: true,
            ..s
        },
        ControlCommand::SetNavFilter { enabled } => ControlState {
            nav_enabled: enabled,
            nav_initialized: if !s.nav_enabled && enabled { false } else { s.nav_initialized },
            ..s
        },
        ControlCommand::Reset => default_scenario_spec(),
        _ => s,
    }
}

/// World effects of a command.
pub open spec fn command_effects(s: ControlState, cmd: ControlCommand) -> CommandEffects {
    match cmd {
        ControlCommand::SetDrive { drive } => CommandEffects {
            set_drive: Some(parse_drive_spec(drive@)),
            ..no_effects()
        },
        ControlCommand::StageAtSource => CommandEffects {
            stage_at: s.mission.source_body,
            ..no_effects()
        },
        ControlCommand::SetThrustMode { mode, body } => CommandEffects {
            cut_thrust: parse_thrust_mode_spec(mode@, body) == ThrustMode::Off,
            ..no_effects()
        },
        ControlCommand::SetAutopilot { engaged } => CommandEffects {
            cut_thrust: !engaged,
            ..no_effects()
        },
        ControlCommand::SetMode { mode } => CommandEffects {
            cut_thrust: s.mode != parse_mode_spec(mode@) && parse_mode_spec(mode@) == SimMode::Sandbox,
            ..no_effects()
        },
        ControlCommand::StartMission { source, target } => CommandEffects {
            stage_at: overlay(source, s.mission.source_body),
            ..no_effects()
        },
        ControlCommand::Reset => CommandEffects { rebuild: true, ..no_effects() },
        _ => no_effects(),
    }
}

fn overlay_exec(new: Option<i32>, prev: Option<i32>) -> (r: Option<i32>)
    ensures
        r == overlay(new, prev),
{
    match new {
        Some(v) => Some(v),
        None => prev,
    }
}

/// Apply one operator command to the control state and report the world
/// effects the host must carry out (in addition to storing the command's
/// floating-point payload, if it has one).
#[verifier::rlimit(60)]
pub fn apply_command(state: &mut ControlState, cmd: ControlCommand) -> (fx: CommandEffects)
    ensures
        *final(state) == next_state(*old(state), cmd),
        fx == command_effects(*old(state), cmd),
{
    let none = CommandEffects { cut_thrust: false, set_drive: None, stage_at: None, rebuild: false };
    match cmd {
        ControlCommand::SetWarp => none,
        ControlCommand::SetPaused { paused } => {
            state.paused = paused;
            none
        },
        ControlCommand::SetThrust => none,
        ControlCommand::SetDrive { drive } => {
            let d = PropulsionType::parse(drive.as_str());
            CommandEffects { set_drive: Some(d), ..none }
        },
        ControlCommand::SetAttitudeRate => none,
        ControlCommand::SetMission { source, target } => {
            state.mission.source_body = source;
            state.mission.target_body = target;
            none
        },
        ControlCommand::StageAtSource => CommandEffects { stage_at: state.mission.source_body, ..none },
        ControlCommand::SetThrustMode { mode, body } => {
            let parsed = ThrustController::parse_mode(mode.as_str(), body);
            state.thrust.mode = parsed;
            let off = match parsed {
                ThrustMode::Off => true,
                _ => false,
            };
            CommandEffects { cut_thrust: off, ..none }
        },
        ControlCommand::SetThrustMagnitude => none,
        ControlCommand::SetAutopilot { engaged } => {
            // Sandbox gives the drive to the operator alone: the autopilot
            // cannot be engaged there.
            state.autopilot_engaged = engaged && state.mode == SimMode::Mission;
            if !engaged {
                state.autopilot_phase = AutopilotPhase::Idle;
            }
            CommandEffects { cut_thrust: !engaged, ..none }
        },
        ControlCommand::SetSensorConfig { enabled, light_time_delay } => {
            if let Some(v) = enabled {
                state.sensors_enabled = v;
            }
            if let Some(v) = light_time_delay {
                state.light_time_delay = v;
            }
            none
        },
        ControlCommand::SetMode { mode } => {
            let new_mode = SimMode::parse(mode.as_str());
            let was = state.mode;
            state.mode = new_mode;
            let leaving_mission = was != new_mode && new_mode == SimMode::Sandbox;
            if leaving_mission {
                state.autopilot_engaged = false;
            }
            CommandEffects { cut_thrust: leaving_mission, ..none }
        },
        ControlCommand::StartMission { source, target } => {
            state.mission.source_body = overlay_exec(source, state.mission.source_body);
            state.mission.target_body = overlay_exec(target, state.mission.target_body);
            state.mode = SimMode::Mission;
            state.autopilot_engaged = true;
            CommandEffects { stage_at: state.mission.source_body, ..none }
        },
        ControlCommand::SetNavFilter { enabled } => {
            let want_reset = !state.nav_enabled && enabled;
            state.nav_enabled = enabled;
            if want_reset {
                state.nav_initialized = false;
            }
            none
        },
        ControlCommand::Reset => {
            *state = ControlState::default_scenario();
            CommandEffects { rebuild: true, ..none }
        },
    }
}


/// Switching from Mission back to Sandbox disengages the autopilot and cuts
/// any in-flight burn, so the ship coasts.
pub proof fn lemma_leaving_mission_cuts_burn(s: ControlState, mode: String)
    requires
        s.mode == SimMode::Mission,
        parse_mode_spec(mode@) == SimMode::Sandbox,
    ensures
        next_state(s, ControlCommand::SetMode { mode }).mode == SimMode::Sandbox,
        !next_state(s, ControlCommand::SetMode { mode }).autopilot_engaged,
        command_effects(s, ControlCommand::SetMode { mode }).cut_thrust,
{
}

/// Re-selecting the current mode changes nothing and cuts nothing.
pub proof fn lemma_same_mode_is_no_op(s: ControlState, mode: String)
    requires
        parse_mode_spec(mode@) == s.mode,
    ensures
        next_state(s, ControlCommand::SetMode { mode }) == s,
        command_effects(s, ControlCommand::SetMode { mode }) == no_effects(),
{
}

/// A mission kickoff always ends in Mission mode with the autopilot engaged,
/// the given endpoints in place, and the ship staged at the (updated) source.
pub proof fn lemma_start_mission_engages(s: ControlState, source: Option<i32>, target: Option<i32>)
    ensures
        ({
            let cmd = ControlCommand::StartMission { source, target };
            let n = next_state(s, cmd);
            let fx = command_effects(s, cmd);
            &&& n.mode == SimMode::Mission
            &&& n.autopilot_engaged
            &&& n.mission.source_body == overlay(source, s.mission.source_body)
            &&& n.mission.target_body == overlay(target, s.mission.target_body)
            &&& fx.stage_at == n.mission.source_body
            &&& !fx.rebuild
        }),
{
}

/// Disengaging the autopilot returns it to Idle and cuts thrust.
pub proof fn lemma_disengage_idles_and_cuts(s: ControlState)
    ensures
        !next_state(s, ControlCommand::SetAutopilot { engaged: false }).autopilot_engaged,
        next_state(s, ControlCommand::SetAutopilot { engaged: false }).autopilot_phase
            == AutopilotPhase::Idle,
        command_effects(s, ControlCommand::SetAutopilot { engaged: false }).cut_thrust,
{
}

/// Who may drive the ship: in Sandbox the autopilot is never engaged.
pub open spec fn authority_consistent(s: ControlState) -> bool {
    s.mode == SimMode::Sandbox ==> !s.autopilot_engaged
}

/// The default scenario starts in Sandbox with the autopilot off.
pub proof fn lemma_default_authority_consistent()
    ensures
        authority_consistent(default_scenario_spec()),
{
}

/// Every command keeps the autopilot disengaged while the mode is Sandbox.
pub proof fn lemma_commands_keep_authority(s: ControlState, cmd: ControlCommand)
    requires
        authority_consistent(s),
    ensures
        authority_consistent(next_state(s, cmd)),
{
}

/// Asking to engage the autopilot in Sandbox changes nothing and cuts no
/// operator burn.
pub proof fn lemma_sandbox_refuses_engage(s: ControlState)
    requires
        s.mode == SimMode::Sandbox,
        authority_consistent(s),
    ensures
        next_state(s, ControlCommand::SetAutopilot { engaged: true }) == s,
        command_effects(s, ControlCommand::SetAutopilot { engaged: true }) == no_effects(),
{
}

/// Reset restores the default scenario whatever state it starts from.
pub proof fn lemma_reset_restores_default(s: ControlState)
    ensures
        next_state(s, ControlCommand::Reset) == default_scenario_spec(),
        next_state(s, ControlCommand::Reset).mode == SimMode::Sandbox,
        !next_state(s, ControlCommand::Reset).autopilot_engaged,
        command_effects(s, ControlCommand::Reset).rebuild,
{
}

/// Selecting thrust mode Off (explicitly or through an unknown name) cuts
/// thrust; any other mode leaves the current command alone.
pub proof fn lemma_thrust_off_cuts(s: ControlState, mode: String, body: Option<i32>)
    ensures
        command_effects(s, ControlCommand::SetThrustMode { mode, body }).cut_thrust
            <==> next_state(s, ControlCommand::SetThrustMode { mode, body }).thrust.mode
            == ThrustMode::Off,
{
}

/// Setting the mission reads back exactly the endpoints that were written.
pub proof fn lemma_set_mission_reads_back(s: ControlState, source: Option<i32>, target: Option<i32>)
    ensures
        next_state(s, ControlCommand::SetMission { source, target }).mission.source_body == source,
        next_state(s, ControlCommand::SetMission { source, target }).mission.target_body == target,
{
}

/// Engaging a disabled navigation filter forces it to re-seed from ground
/// truth.
pub proof fn lemma_nav_reengage_reseeds(s: ControlState)
    requires
        !s.nav_enabled,
    ensures
        next_state(s, ControlCommand::SetNavFilter { enabled: true }).nav_enabled,
        !next_state(s, ControlCommand::SetNavFilter { enabled: true }).nav_initialized,
{
}

/// Only SetMission, StartMission and Reset change the mission endpoints.
pub proof fn lemma_mission_changes_only_by_mission_commands(s: ControlState, cmd: ControlCommand)
    requires
        !(cmd is SetMission),
        !(cmd is StartMission),
        !(cmd is Reset),
    ensures
        next_state(s, cmd).mission == s.mission,
{
}

/// Only Reset asks for the world to be rebuilt.
pub proof fn lemma_only_reset_rebuilds(s: ControlState, cmd: ControlCommand)
    ensures
        command_effects(s, cmd).rebuild <==> cmd is Reset,
{
}

/// Staging, from either command, always targets the mission source in force
/// after the command, and never happens without one.
pub proof fn lemma_staging_uses_source(s: ControlState, cmd: ControlCommand)
    ensures
        command_effects(s, cmd).stage_at is Some ==>
            command_effects(s, cmd).stage_at == next_state(s, cmd).mission.source_body,
{
}

/// Pausing and resuming write exactly the requested flag and nothing else:
/// a paused clock can always be resumed, and the world is left alone.
pub proof fn lemma_set_paused(s: ControlState, paused: bool)
    ensures
        next_state(s, ControlCommand::SetPaused { paused }) == (ControlState { paused, ..s }),
        next_state(s, ControlCommand::SetPaused { paused }).paused == paused,
        command_effects(s, ControlCommand::SetPaused { paused }) == (CommandEffects { cut_thrust: false, set_drive: None, stage_at: None, rebuild: false }),
        !next_state(next_state(s, ControlCommand::SetPaused { paused: true }), ControlCommand::SetPaused { paused: false }).paused,
{
}

/// The default scenario, field by field: an Earth (399) to Mars (499)
/// mission in Sandbox mode, the autopilot disengaged and idle, the clock
/// running, the operator thrust mode off, sensors on without light-time
/// delay, and the navigation filter off and unseeded. Reset lands there from
/// any state.
pub proof fn lemma_default_scenario_fields(s: ControlState)
    ensures
        ({
            let d = default_scenario_spec();
            &&& d.mission.source_body == Some(399i32)
            &&& d.mission.target_body == Some(499i32)
            &&& d.mode == SimMode::Sandbox
            &&& !d.autopilot_engaged
            &&& d.autopilot_phase == AutopilotPhase::Idle
            &&& !d.paused
            &&& d.thrust.mode == ThrustMode::Off
            &&& d.sensors_enabled
            &&& !d.light_time_delay
            &&& !d.nav_enabled
            &&& !d.nav_initialized
            &&& next_state(s, ControlCommand::Reset) == d
        }),
        !next_state(s, ControlCommand::Reset).paused,
{
}

/// Switching the navigation filter writes exactly the requested switch;
/// turning a disabled filter on drops its seed so it re-seeds, and nothing
/// else changes.
pub proof fn lemma_set_nav_filter(s: ControlState, enabled: bool)
    ensures
        ({
            let r = next_state(s, ControlCommand::SetNavFilter { enabled });
            &&& r.nav_enabled == enabled
            &&& (!s.nav_enabled && enabled ==> !r.nav_initialized)
            &&& (!(!s.nav_enabled && enabled) ==> r.nav_initialized == s.nav_initialized)
            &&& r == (ControlState { nav_enabled: r.nav_enabled, nav_initialized: r.nav_initialized, ..s })
        }),
        command_effects(s, ControlCommand::SetNavFilter { enabled }) == (CommandEffects { cut_thrust: false, set_drive: None, stage_at: None, rebuild: false }),
{
}

/// Each sensor switch that is given is written as given; a switch left out
/// keeps its value; nothing else changes.
pub proof fn lemma_set_sensor_config(s: ControlState, enabled: Option<bool>, light_time_delay: Option<bool>)
    ensures
        ({
            let r = next_state(s, ControlCommand::SetSensorConfig { enabled, light_time_delay });
            &&& (enabled matches Some(v) ==> r.sensors_enabled == v)
            &&& (enabled is None ==> r.sensors_enabled == s.sensors_enabled)
            &&& (light_time_delay matches Some(v) ==> r.light_time_delay == v)
            &&& (light_time_delay is None ==> r.light_time_delay == s.light_time_delay)
            &&& r == (ControlState { sensors_enabled: r.sensors_enabled, light_time_delay: r.light_time_delay, ..s })
        }),
        command_effects(s, ControlCommand::SetSensorConfig { enabled, light_time_delay }) == (CommandEffects { cut_thrust: false, set_drive: None, stage_at: None, rebuild: false }),
{
}

/// Engaging takes effect exactly in Mission mode and keeps the current
/// phase, cutting nothing; disengaging always takes effect, idles the
/// autopilot and cuts thrust. Nothing else changes.
pub proof fn lemma_set_autopilot(s: ControlState, engaged: bool)
    ensures
        ({
            let r = next_state(s, ControlCommand::SetAutopilot { engaged });
            let fx = command_effects(s, ControlCommand::SetAutopilot { engaged });
            &&& (engaged ==> (r.autopilot_engaged <==> s.mode == SimMode::Mission))
            &&& (engaged ==> r.autopilot_phase == s.autopilot_phase)
            &&& (!engaged ==> !r.autopilot_engaged && r.autopilot_phase == AutopilotPhase::Idle)
            &&& r == (ControlState { autopilot_engaged: r.autopilot_engaged, autopilot_phase: r.autopilot_phase, ..s })
            &&& fx == (CommandEffects { cut_thrust: !engaged, set_drive: None, stage_at: None, rebuild: false })
        }),
{
}

/// A mode switch installs the named mode ("mission" for Mission, anything
/// else Sandbox). Going from Mission to Sandbox disengages the autopilot and
/// cuts thrust; any other switch leaves the autopilot and the drive alone.
pub proof fn lemma_set_mode(s: ControlState, mode: String)
    ensures
        ({
            let r = next_state(s, ControlCommand::SetMode { mode });
            let fx = command_effects(s, ControlCommand::SetMode { mode });
            let leaving = s.mode == SimMode::Mission && r.mode == SimMode::Sandbox;
            &&& (r.mode == SimMode::Mission <==> mode@ == "mission"@)
            &&& (leaving ==> !r.autopilot_engaged)
            &&& (!leaving ==> r.autopilot_engaged == s.autopilot_engaged)
            &&& r == (ControlState { mode: r.mode, autopilot_engaged: r.autopilot_engaged, ..s })
            &&& fx == (CommandEffects { cut_thrust: leaving, set_drive: None, stage_at: None, rebuild: false })
        }),
{
}

/// Selecting a thrust mode installs the parsed mode and cuts thrust exactly
/// when that mode is Off. Nothing else changes.
pub proof fn lemma_set_thrust_mode(s: ControlState, mode: String, body: Option<i32>)
    ensures
        ({
            let m = parse_thrust_mode_spec(mode@, body);
            &&& next_state(s, ControlCommand::SetThrustMode { mode, body })
                == (ControlState { thrust: ThrustController { mode: m }, ..s })
            &&& command_effects(s, ControlCommand::SetThrustMode { mode, body })
                == (CommandEffects { cut_thrust: m == ThrustMode::Off, set_drive: None, stage_at: None, rebuild: false })
        }),
{
}

/// Setting the mission replaces both endpoints with the given ones and
/// nothing else.
pub proof fn lemma_set_mission(s: ControlState, source: Option<i32>, target: Option<i32>)
    ensures
        next_state(s, ControlCommand::SetMission { source, target })
            == (ControlState { mission: Mission { source_body: source, target_body: target }, ..s }),
        command_effects(s, ControlCommand::SetMission { source, target }) == (CommandEffects { cut_thrust: false, set_drive: None, stage_at: None, rebuild: false }),
{
}

/// A mission kickoff replaces each endpoint that is given and keeps the
/// other, enters Mission mode with the autopilot engaged, and stages the
/// ship at the resulting source. Nothing else changes.
pub proof fn lemma_start_mission(s: ControlState, source: Option<i32>, target: Option<i32>)
    ensures
        ({
            let src = match source { Some(v) => Some(v), None => s.mission.source_body };
            let tgt = match target { Some(v) => Some(v), None => s.mission.target_body };
            &&& next_state(s, ControlCommand::StartMission { source, target })
                == (ControlState {
                    mission: Mission { source_body: src, target_body: tgt },
                    mode: SimMode::Mission,
                    autopilot_engaged: true,
                    ..s
                })
            &&& command_effects(s, ControlCommand::StartMission { source, target })
                == (CommandEffects { cut_thrust: false, set_drive: None, stage_at: src, rebuild: false })
        }),
{
}

/// Commands whose work is on the world alone leave the control state as it
/// is: the payload-only commands ask for nothing more, a drive switch asks
/// for the named drive, and staging asks for the current mission source.
pub proof fn lemma_world_only_commands(s: ControlState, drive: String)
    ensures
        next_state(s, ControlCommand::SetWarp) == s,
        next_state(s, ControlCommand::SetThrust) == s,
        next_state(s, ControlCommand::SetAttitudeRate) == s,
        next_state(s, ControlCommand::SetThrustMagnitude) == s,
        next_state(s, ControlCommand::SetDrive { drive }) == s,
        next_state(s, ControlCommand::StageAtSource) == s,
        command_effects(s, ControlCommand::SetWarp) == (CommandEffects { cut_thrust: false, set_drive: None, stage_at: None, rebuild: false }),
        command_effects(s, ControlCommand::SetThrust) == (CommandEffects { cut_thrust: false, set_drive: None, stage_at: None, rebuild: false }),
        command_effects(s, ControlCommand::SetAttitudeRate) == (CommandEffects { cut_thrust: false, set_drive: None, stage_at: None, rebuild: false }),
        command_effects(s, ControlCommand::SetThrustMagnitude) == (CommandEffects { cut_thrust: false, set_drive: None, stage_at: None, rebuild: false }),
        command_effects(s, ControlCommand::SetDrive { drive })
            == (CommandEffects { cut_thrust: false, set_drive: Some(parse_drive_spec(drive@)), stage_at: None, rebuild: false }),
        command_effects(s, ControlCommand::StageAtSource)
            == (CommandEffects { cut_thrust: false, set_drive: None, stage_at: s.mission.source_body, rebuild: false }),
{
}

} // verus!
