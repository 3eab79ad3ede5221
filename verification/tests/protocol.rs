use sim_core::autopilot::AutopilotPhase;
use sim_core::components::PropulsionType;
use sim_core::ephemeris::naif;
use sim_core::mission::Mission;
use sim_core::mode::SimMode;
use sim_core::protocol::command::apply_command;
use sim_core::protocol::types::{CommandEffects, ControlCommand, ControlState};
use sim_core::thrust_controller::ThrustMode;

const NONE: CommandEffects = CommandEffects { cut_thrust: false, set_drive: None, stage_at: None, rebuild: false };

#[test]
fn default_scenario_starts_in_sandbox() {
    let s = ControlState::default_scenario();
    assert_eq!(s.mode.name(), "sandbox");
    assert_eq!(s.mission.source_body, Some(naif::EARTH));
    assert_eq!(s.mission.target_body, Some(naif::MARS));
    assert!(!s.autopilot_engaged);
    assert_eq!(s.autopilot_phase, AutopilotPhase::Idle);
    assert_eq!(s.thrust.mode, ThrustMode::Off);
    assert!(s.sensors_enabled);
    assert!(!s.nav_enabled);
    assert_eq!(sim_core::ephemeris::roster::default_roster().len(), 12);
}

#[test]
fn protocol_start_mission_engages_autopilot() {
    let mut s = ControlState::default_scenario();
    let fx = apply_command(
        &mut s,
        ControlCommand::StartMission { source: Some(naif::EARTH), target: Some(naif::MARS) },
    );
    assert_eq!(s.mode.name(), "mission");
    assert!(s.autopilot_engaged);
    assert_eq!(fx.stage_at, Some(naif::EARTH));
    assert!(!fx.rebuild);
}

#[test]
fn protocol_reset_rebuilds_sim_and_respawns_spacecraft() {
    let mut s = ControlState::default_scenario();
    apply_command(&mut s, ControlCommand::SetMode { mode: "mission".to_string() });
    assert_eq!(s.mode, SimMode::Mission);
    let fx = apply_command(&mut s, ControlCommand::Reset);
    assert_eq!(s.mode.name(), "sandbox");
    assert!(fx.rebuild);
    assert!(!s.autopilot_engaged);
    assert_eq!(s, ControlState::default_scenario());
}

#[test]
fn set_warp_leaves_control_state() {
    // The warp factor itself is applied by the host; the control state
    // and the world effects are untouched.
    let mut s = ControlState::default_scenario();
    apply_command(&mut s, ControlCommand::StartMission { source: None, target: None });
    let before = s;
    let fx = apply_command(&mut s, ControlCommand::SetWarp);
    assert_eq!(s, before);
    assert_eq!(fx, NONE);
}

#[test]
fn start_mission_keeps_unspecified_endpoints() {
    let mut s = ControlState::default_scenario();
    let fx = apply_command(&mut s, ControlCommand::StartMission { source: None, target: Some(naif::LUNA) });
    assert_eq!(s.mission, Mission::new(naif::EARTH, naif::LUNA));
    assert_eq!(fx.stage_at, Some(naif::EARTH));
    s.mission.clear();
    let fx = apply_command(&mut s, ControlCommand::StartMission { source: None, target: None });
    assert_eq!(fx.stage_at, None);
    assert_eq!(s.mode, SimMode::Mission);
}

#[test]
fn leaving_mission_disengages_and_cuts() {
    let mut s = ControlState::default_scenario();
    apply_command(&mut s, ControlCommand::StartMission { source: None, target: None });
    let fx = apply_command(&mut s, ControlCommand::SetMode { mode: "sandbox".to_string() });
    assert_eq!(s.mode, SimMode::Sandbox);
    assert!(!s.autopilot_engaged);
    assert!(fx.cut_thrust);
    // Already in Sandbox: nothing to cut.
    let fx = apply_command(&mut s, ControlCommand::SetMode { mode: "anything".to_string() });
    assert_eq!(fx, NONE);
}

#[test]
fn autopilot_command_disengage_idles() {
    let mut s = ControlState::default_scenario();
    apply_command(&mut s, ControlCommand::SetMode { mode: "mission".to_string() });
    s.autopilot_phase = AutopilotPhase::Brake;
    let fx = apply_command(&mut s, ControlCommand::SetAutopilot { engaged: true });
    assert!(s.autopilot_engaged);
    assert_eq!(s.autopilot_phase, AutopilotPhase::Brake);
    assert!(!fx.cut_thrust);
    let fx = apply_command(&mut s, ControlCommand::SetAutopilot { engaged: false });
    assert!(!s.autopilot_engaged);
    assert_eq!(s.autopilot_phase, AutopilotPhase::Idle);
    assert!(fx.cut_thrust);
}

#[test]
fn sandbox_refuses_autopilot_engage() {
    let mut s = ControlState::default_scenario();
    assert_eq!(s.mode, SimMode::Sandbox);
    let fx = apply_command(&mut s, ControlCommand::SetAutopilot { engaged: true });
    assert!(!s.autopilot_engaged);
    assert_eq!(s, ControlState::default_scenario());
    assert_eq!(fx, NONE);
    // Once in Mission the same command engages it.
    apply_command(&mut s, ControlCommand::SetMode { mode: "mission".to_string() });
    apply_command(&mut s, ControlCommand::SetAutopilot { engaged: true });
    assert!(s.autopilot_engaged);
    // Back to Sandbox: disengaged again, and engaging stays refused.
    apply_command(&mut s, ControlCommand::SetMode { mode: "sandbox".to_string() });
    assert!(!s.autopilot_engaged);
    apply_command(&mut s, ControlCommand::SetAutopilot { engaged: true });
    assert!(!s.autopilot_engaged);
}

#[test]
fn thrust_mode_off_cuts() {
    let mut s = ControlState::default_scenario();
    let fx = apply_command(&mut s, ControlCommand::SetThrustMode { mode: "toward_body".to_string(), body: Some(301) });
    assert_eq!(s.thrust.mode, ThrustMode::TowardBody(301));
    assert!(!fx.cut_thrust);
    let fx = apply_command(&mut s, ControlCommand::SetThrustMode { mode: "bogus".to_string(), body: None });
    assert_eq!(s.thrust.mode, ThrustMode::Off);
    assert!(fx.cut_thrust);
}

#[test]
fn drive_switch_and_staging_effects() {
    let mut s = ControlState::default_scenario();
    let fx = apply_command(&mut s, ControlCommand::SetDrive { drive: "epstein".to_string() });
    assert_eq!(fx.set_drive, Some(PropulsionType::Brachistochrone));
    let fx = apply_command(&mut s, ControlCommand::SetDrive { drive: "chemical".to_string() });
    assert_eq!(fx.set_drive, Some(PropulsionType::Conventional));
    let fx = apply_command(&mut s, ControlCommand::StageAtSource);
    assert_eq!(fx.stage_at, Some(naif::EARTH));
    apply_command(&mut s, ControlCommand::SetMission { source: None, target: Some(naif::MARS) });
    let fx = apply_command(&mut s, ControlCommand::StageAtSource);
    assert_eq!(fx.stage_at, None);
}

#[test]
fn set_mission_reads_back() {
    let mut s = ControlState::default_scenario();
    apply_command(&mut s, ControlCommand::SetMission { source: Some(naif::MARS), target: None });
    assert_eq!(s.mission.source_body, Some(naif::MARS));
    assert_eq!(s.mission.target_body, None);
}

#[test]
fn paused_sensor_and_nav_switches() {
    let mut s = ControlState::default_scenario();
    apply_command(&mut s, ControlCommand::SetPaused { paused: true });
    assert!(s.paused);
    apply_command(&mut s, ControlCommand::SetSensorConfig { enabled: Some(false), light_time_delay: None });
    assert!(!s.sensors_enabled);
    assert!(!s.light_time_delay);
    apply_command(&mut s, ControlCommand::SetSensorConfig { enabled: None, light_time_delay: Some(true) });
    assert!(!s.sensors_enabled);
    assert!(s.light_time_delay);
    s.nav_initialized = true;
    apply_command(&mut s, ControlCommand::SetNavFilter { enabled: true });
    assert!(s.nav_enabled);
    assert!(!s.nav_initialized);
    s.nav_initialized = true;
    apply_command(&mut s, ControlCommand::SetNavFilter { enabled: true });
    assert!(s.nav_initialized);
}

#[test]
fn payload_only_commands_leave_state() {
    for cmd in [ControlCommand::SetThrust, ControlCommand::SetAttitudeRate, ControlCommand::SetThrustMagnitude] {
        let mut s = ControlState::default_scenario();
        let fx = apply_command(&mut s, cmd);
        assert_eq!(s, ControlState::default_scenario());
        assert_eq!(fx, NONE);
    }
}

#[test]
fn mod_start_mission_engages_autopilot() {
    let mut s = ControlState::default_scenario();
    apply_command(
        &mut s,
        ControlCommand::StartMission { source: Some(naif::EARTH), target: Some(naif::MARS) },
    );
    assert_eq!(s.mode.name(), "mission");
    assert!(s.autopilot_engaged);
}

#[test]
fn mod_reset_rebuilds_sim_and_respawns_spacecraft() {
    let mut s = ControlState::default_scenario();
    apply_command(&mut s, ControlCommand::SetMode { mode: "mission".to_string() });
    let fx = apply_command(&mut s, ControlCommand::Reset);
    assert_eq!(s.mode.name(), "sandbox");
    assert!(fx.rebuild);
    assert!(!s.autopilot_engaged);
}
