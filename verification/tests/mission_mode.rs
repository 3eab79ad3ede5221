use sim_core::components::PropulsionType;
use sim_core::ephemeris::naif;
use sim_core::mission::Mission;
use sim_core::mode::{SimMode, SimModeState};
use sim_core::text::str_eq;

#[test]
fn default_mission_is_empty() {
    let m = Mission::default();
    assert!(m.source_body.is_none());
    assert!(m.target_body.is_none());
}

#[test]
fn new_sets_both_endpoints() {
    let m = Mission::new(399, 499); // Earth → Mars
    assert_eq!(m.source_body, Some(399));
    assert_eq!(m.target_body, Some(499));
}

#[test]
fn clear_drops_both() {
    let mut m = Mission::new(399, 499);
    m.clear();
    assert!(m.source_body.is_none());
    assert!(m.target_body.is_none());
}

#[test]
fn default_is_sandbox() {
    let state = SimModeState::default();
    assert_eq!(state.mode, SimMode::Sandbox);
    assert_eq!(SimMode::default(), SimMode::Sandbox);
}

#[test]
fn modes_round_trip_json() {
    // The wire form of the mode resource is an object with the mode's name.
    let s = SimModeState { mode: SimMode::Mission };
    let mut wire = std::collections::BTreeMap::new();
    wire.insert("mode", s.mode.name());
    let j = serde_json::to_string(&wire).unwrap();
    assert!(j.contains("mission"));
    let back: std::collections::BTreeMap<String, String> = serde_json::from_str(&j).unwrap();
    let back = SimModeState { mode: SimMode::parse(&back["mode"]) };
    assert_eq!(back.mode, SimMode::Mission);
}

#[test]
fn mode_names_and_fallback() {
    assert_eq!(SimMode::Sandbox.name(), "sandbox");
    assert_eq!(SimMode::Mission.name(), "mission");
    assert_eq!(SimMode::parse("sandbox"), SimMode::Sandbox);
    assert_eq!(SimMode::parse("Mission"), SimMode::Sandbox);
    assert_eq!(SimMode::parse("missionx"), SimMode::Sandbox);
    assert_eq!(SimMode::parse(""), SimMode::Sandbox);
}

#[test]
fn drive_names_parse() {
    assert_eq!(PropulsionType::parse("brachistochrone"), PropulsionType::Brachistochrone);
    assert_eq!(PropulsionType::parse("brach"), PropulsionType::Brachistochrone);
    assert_eq!(PropulsionType::parse("epstein"), PropulsionType::Brachistochrone);
    assert_eq!(PropulsionType::parse("conventional"), PropulsionType::Conventional);
    assert_eq!(PropulsionType::parse("ion"), PropulsionType::Conventional);
    assert_eq!(PropulsionType::Conventional.name(), "conventional");
    assert_eq!(PropulsionType::Brachistochrone.name(), "brachistochrone");
    for d in [PropulsionType::Conventional, PropulsionType::Brachistochrone] {
        assert_eq!(PropulsionType::parse(d.name()), d);
    }
}

#[test]
fn str_eq_compares_whole_strings() {
    assert!(str_eq("abc", "abc"));
    assert!(!str_eq("abc", "abd"));
    assert!(!str_eq("abc", "ab"));
    assert!(str_eq("", ""));
    assert!(str_eq("Δv", "Δv"));
    assert!(!str_eq("Δv", "Δw"));
}

#[test]
fn naif_ids_match_catalogue() {
    assert_eq!(naif::SUN, 10);
    assert_eq!(naif::EARTH, 399);
    assert_eq!(naif::LUNA, 301);
    assert_eq!(naif::MARS, 499);
    assert_eq!(naif::PHOBOS, 401);
    assert_eq!(naif::DEIMOS, 402);
}
