use sim_core::autopilot::{
    autopilot_step, phase_str, steer_phase, AutopilotFacts, AutopilotPhase, AutopilotStep,
};
use sim_core::ephemeris::naif;
use sim_core::mission::Mission;
use sim_core::nav::{nav_step, uses_range_reading, NavStep};
use sim_core::thrust_controller::{resolve_aim, ThrustAim, ThrustController, ThrustMode};

fn facts() -> AutopilotFacts {
    AutopilotFacts {
        engaged: true,
        has_ship: true,
        has_ephemeris: true,
        target: Some(naif::EARTH),
        target_known: true,
        within_tolerance: false,
        accel_available: true,
    }
}

#[test]
fn autopilot_idle_when_disengaged() {
    let f = AutopilotFacts { engaged: false, target: None, ..facts() };
    let step = autopilot_step(f);
    assert_eq!(step, AutopilotStep::Disengaged);
    assert_eq!(step.phase(), Some(AutopilotPhase::Idle));
    assert!(!step.cut_thrust());
}

#[test]
fn autopilot_holds_when_target_missing() {
    let f = AutopilotFacts { target: None, target_known: false, ..facts() };
    let step = autopilot_step(f);
    assert_eq!(step.phase(), Some(AutopilotPhase::Hold));
    assert!(step.cut_thrust());
}

#[test]
fn autopilot_decision_ladder() {
    assert_eq!(autopilot_step(AutopilotFacts { has_ship: false, ..facts() }), AutopilotStep::NoShip);
    assert!(!AutopilotStep::NoShip.cut_thrust());
    assert_eq!(autopilot_step(AutopilotFacts { has_ephemeris: false, ..facts() }), AutopilotStep::HoldAndCut);
    assert_eq!(autopilot_step(AutopilotFacts { target_known: false, ..facts() }), AutopilotStep::HoldAndCut);
    let arrive = autopilot_step(AutopilotFacts { within_tolerance: true, accel_available: false, ..facts() });
    assert_eq!(arrive, AutopilotStep::Arrive);
    assert_eq!(arrive.phase(), Some(AutopilotPhase::Arrived));
    assert!(arrive.cut_thrust());
    assert_eq!(autopilot_step(AutopilotFacts { accel_available: false, ..facts() }), AutopilotStep::HoldAndCut);
    let steer = autopilot_step(facts());
    assert_eq!(steer, AutopilotStep::Steer);
    assert_eq!(steer.phase(), None);
}

#[test]
fn steering_phase_classification() {
    assert_eq!(steer_phase(true, true), AutopilotPhase::Boost);
    assert_eq!(steer_phase(false, true), AutopilotPhase::Brake);
    assert_eq!(steer_phase(false, false), AutopilotPhase::Boost);
}

#[test]
fn phase_wire_names() {
    assert_eq!(phase_str(AutopilotPhase::Idle), "idle");
    assert_eq!(phase_str(AutopilotPhase::Boost), "boost");
    assert_eq!(phase_str(AutopilotPhase::Brake), "brake");
    assert_eq!(phase_str(AutopilotPhase::Arrived), "arrived");
    assert_eq!(phase_str(AutopilotPhase::Hold), "hold");
}

#[test]
fn thrust_mode_parsing() {
    assert_eq!(ThrustController::parse_mode("off", None), ThrustMode::Off);
    assert_eq!(ThrustController::parse_mode("body", None), ThrustMode::BodyX);
    assert_eq!(ThrustController::parse_mode("body_x", None), ThrustMode::BodyX);
    assert_eq!(ThrustController::parse_mode("toward_target", None), ThrustMode::TowardTarget);
    assert_eq!(ThrustController::parse_mode("toward_body", Some(499)), ThrustMode::TowardBody(499));
    assert_eq!(ThrustController::parse_mode("away_from_body", None), ThrustMode::AwayFromBody(0));
    assert_eq!(ThrustController::parse_mode("sideways", Some(5)), ThrustMode::Off);
}

#[test]
fn thrust_mode_round_trip() {
    let modes = [
        ThrustMode::Off,
        ThrustMode::BodyX,
        ThrustMode::Prograde,
        ThrustMode::Retrograde,
        ThrustMode::TowardTarget,
        ThrustMode::AwayFromTarget,
        ThrustMode::TowardSource,
        ThrustMode::AwayFromSource,
        ThrustMode::TowardBody(301),
        ThrustMode::AwayFromBody(-7),
    ];
    for m in modes {
        let c = ThrustController { mode: m };
        assert_eq!(ThrustController::parse_mode(c.mode_str(), c.target_body()), m);
    }
    assert_eq!(ThrustController { mode: ThrustMode::Prograde }.mode_str(), "prograde");
    assert_eq!(ThrustController { mode: ThrustMode::TowardBody(3) }.target_body(), Some(3));
    assert_eq!(ThrustController::default().mode, ThrustMode::Off);
}

#[test]
fn thrust_aim_resolution() {
    let mission = Mission::new(naif::EARTH, naif::MARS);
    let ctrl = |mode| ThrustController { mode };
    assert_eq!(resolve_aim(&ctrl(ThrustMode::Prograde), true, true, &mission), ThrustAim::HandsOff);
    assert_eq!(resolve_aim(&ctrl(ThrustMode::Prograde), false, false, &mission), ThrustAim::HandsOff);
    assert_eq!(resolve_aim(&ctrl(ThrustMode::Off), false, true, &mission), ThrustAim::HandsOff);
    assert_eq!(resolve_aim(&ctrl(ThrustMode::BodyX), false, true, &mission), ThrustAim::AlongBodyX);
    assert_eq!(resolve_aim(&ctrl(ThrustMode::Retrograde), false, true, &mission), ThrustAim::AgainstVelocity);
    assert_eq!(
        resolve_aim(&ctrl(ThrustMode::TowardTarget), false, true, &mission),
        ThrustAim::AtBody { id: naif::MARS, away: false }
    );
    assert_eq!(
        resolve_aim(&ctrl(ThrustMode::AwayFromSource), false, true, &mission),
        ThrustAim::AtBody { id: naif::EARTH, away: true }
    );
    assert_eq!(
        resolve_aim(&ctrl(ThrustMode::TowardTarget), false, true, &Mission::default()),
        ThrustAim::HandsOff
    );
    assert_eq!(
        resolve_aim(&ctrl(ThrustMode::AwayFromBody(301)), false, true, &Mission::default()),
        ThrustAim::AtBody { id: 301, away: true }
    );
}

#[test]
fn nav_initializes_on_engage_from_ground_truth() {
    assert_eq!(nav_step(true, false, true, true), NavStep::Run { seed: true });
    assert_eq!(nav_step(true, true, true, true), NavStep::Run { seed: false });
}

#[test]
fn nav_disable_clears_estimate() {
    assert_eq!(nav_step(false, true, true, true), NavStep::Disabled { reset_filter: true });
    assert_eq!(nav_step(false, false, true, true), NavStep::Disabled { reset_filter: false });
    assert_eq!(nav_step(true, false, false, true), NavStep::Wait);
    assert_eq!(nav_step(true, false, true, false), NavStep::Wait);
}

#[test]
fn nav_skips_sun_and_unknown_bodies() {
    assert!(!uses_range_reading(naif::SUN, true));
    assert!(!uses_range_reading(naif::EARTH, false));
    assert!(uses_range_reading(naif::EARTH, true));
}
