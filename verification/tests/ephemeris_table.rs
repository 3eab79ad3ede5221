use sim_core::ephemeris::naif;
use sim_core::ephemeris::roster::{default_roster, RosterEntry};
use sim_core::ephemeris::table::{BodyTable, RefreshStep};

/// Stand-in physical parameters: (mu tag).
type Params = u32;
/// Stand-in state: (x, generation).
type State = (i64, u32);

fn default_table() -> BodyTable<Params, State> {
    let mut t: BodyTable<Params, State> = BodyTable::new();
    let bodies: Vec<(RosterEntry, Params)> =
        default_roster().into_iter().enumerate().map(|(i, e)| (e, i as u32)).collect();
    t.set_bodies(bodies);
    t.refresh(|p, step, prior| match step {
        RefreshStep::Heliocentric => (p as i64 * 1000, 1),
        RefreshStep::Relative { .. } => (prior.unwrap().0 + p as i64, 1),
        RefreshStep::Keep => prior.unwrap_or((0, 0)),
    });
    t
}

#[test]
fn cache_default_returns_all_planets() {
    let cache = default_table();
    assert_eq!(cache.bodies().len(), 12);
    assert!(cache.get(naif::EARTH).is_some());
    assert!(cache.get(naif::MARS).is_some());
    assert!(cache.get(naif::LUNA).is_some());
    assert!(cache.get(naif::PHOBOS).is_some());
    assert!(cache.get(naif::DEIMOS).is_some());
    assert_eq!(cache.all_states().len(), 12);
}

#[test]
fn satellites_propagate_relative_to_parent() {
    let cache = default_table();
    let earth = cache.get(naif::EARTH).unwrap();
    let luna = cache.get(naif::LUNA).unwrap();
    // Earth is roster entry 3, Luna entry 4.
    assert_eq!(earth, (3000, 1));
    assert_eq!(luna, (3004, 1));
    let mars = cache.get(naif::MARS).unwrap();
    assert_eq!(cache.get(naif::PHOBOS).unwrap(), (mars.0 + 6, 1));
    // The Sun has no elements and keeps its (default) state.
    assert_eq!(cache.get(naif::SUN).unwrap(), (0, 0));
}

#[test]
fn set_state_replaces_or_appends() {
    let mut cache = default_table();
    let target = RosterEntry { id: -1000, name: "Target", parent: None, has_orbit: false };
    cache.set_state(target, 77, (5, 9));
    assert_eq!(cache.len(), 13);
    assert_eq!(cache.get(-1000), Some((5, 9)));
    assert_eq!(cache.index_of(-1000), Some(12));
    let earth_entry = cache.entry(3);
    cache.set_state(earth_entry, 99, (1, 2));
    assert_eq!(cache.len(), 13);
    assert_eq!(*cache.params_at(3), 99);
    assert_eq!(cache.get(naif::EARTH), Some((1, 2)));
    // A pinned body keeps its state across refreshes.
    cache.refresh(|p, step, prior| match step {
        RefreshStep::Heliocentric => (p as i64, 3),
        RefreshStep::Relative { .. } => (prior.unwrap().0 + 1, 3),
        RefreshStep::Keep => prior.unwrap_or((0, 0)),
    });
    assert_eq!(cache.get(-1000), Some((5, 9)));
    assert_eq!(cache.get(naif::EARTH), Some((99, 3)));
    assert_eq!(cache.get(naif::LUNA), Some((100, 3)));
}

#[test]
fn orphan_satellite_keeps_state() {
    let mut t: BodyTable<u32, i64> = BodyTable::new();
    t.set_bodies(vec![
        (RosterEntry { id: 401, name: "Phobos", parent: Some(499), has_orbit: true }, 1),
        (RosterEntry { id: 499, name: "Mars", parent: None, has_orbit: true }, 2),
    ]);
    t.refresh(|p, step, prior| match step {
        RefreshStep::Heliocentric => 10 * p as i64,
        RefreshStep::Relative { .. } => prior.unwrap() + 1,
        RefreshStep::Keep => prior.unwrap_or(-1),
    });
    // Listed before its parent with no known parent state: kept (default).
    assert_eq!(t.get(401), Some(-1));
    assert_eq!(t.get(499), Some(20));
    // On the next pass the parent's state is known.
    t.refresh(|p, step, prior| match step {
        RefreshStep::Heliocentric => 10 * p as i64,
        RefreshStep::Relative { parent_index, .. } => prior.unwrap() + parent_index.unwrap() as i64 * 100,
        RefreshStep::Keep => prior.unwrap_or(-1),
    });
    assert_eq!(t.get(401), Some(120));
}

#[test]
fn default_roster_lists_parents_first() {
    let r = default_roster();
    assert_eq!(r.len(), 12);
    assert_eq!(r[0].id, naif::SUN);
    assert!(!r[0].has_orbit);
    for (i, e) in r.iter().enumerate() {
        if let Some(p) = e.parent {
            assert!(r[..i].iter().any(|q| q.id == p));
        }
    }
    assert_eq!(r.iter().filter(|e| e.parent.is_some()).count(), 3);
    assert_eq!(r[4].name, "Luna");
}

#[test]
fn default_roster_entries_in_order() {
    let r = default_roster();
    let ids: Vec<i32> = r.iter().map(|e| e.id).collect();
    assert_eq!(ids, vec![10, 199, 299, 399, 301, 499, 401, 402, 599, 699, 799, 899]);
    let names: Vec<&str> = r.iter().map(|e| e.name).collect();
    assert_eq!(
        names,
        vec!["Sun", "Mercury", "Venus", "Earth", "Luna", "Mars", "Phobos", "Deimos", "Jupiter", "Saturn", "Uranus", "Neptune"]
    );
    let parents: Vec<Option<i32>> = r.iter().map(|e| e.parent).collect();
    assert_eq!(
        parents,
        vec![None, None, None, None, Some(399), None, Some(499), Some(499), None, None, None, None]
    );
    assert!(!r[0].has_orbit);
    assert!(r[1..].iter().all(|e| e.has_orbit));
}

#[test]
fn second_refresh_reproduces_first() {
    let propagate = |p: Params, step: RefreshStep, prior: Option<State>| match step {
        RefreshStep::Heliocentric => (p as i64 * 1000, 1),
        RefreshStep::Relative { .. } => (prior.unwrap().0 + p as i64, 1),
        RefreshStep::Keep => prior.unwrap_or((0, 0)),
    };
    let mut t = default_table();
    let once = t.all_states();
    t.refresh(propagate);
    assert_eq!(t.all_states(), once);
    for e in default_roster() {
        assert!(t.get(e.id).is_some());
    }
}

#[test]
fn repeated_id_last_listing_decides() {
    let mut t: BodyTable<u32, i64> = BodyTable::new();
    t.set_bodies(vec![
        (RosterEntry { id: 1, name: "A", parent: None, has_orbit: false }, 1),
        (RosterEntry { id: 2, name: "B", parent: Some(1), has_orbit: true }, 2),
        (RosterEntry { id: 1, name: "A", parent: None, has_orbit: true }, 3),
    ]);
    let propagate = |p: u32, step: RefreshStep, prior: Option<i64>| match step {
        RefreshStep::Heliocentric => 100 * p as i64,
        RefreshStep::Relative { .. } => prior.unwrap() + p as i64,
        RefreshStep::Keep => prior.unwrap_or(7),
    };
    t.refresh(propagate);
    // Body 1: kept (7) at the first listing, then propagated (300) at the last.
    assert_eq!(t.get(1), Some(300));
    // Body 2 saw body 1 as the pass had left it at that point.
    assert_eq!(t.get(2), Some(9));
    // A second pass starts from 300 for body 1, so it does not reproduce the first.
    t.refresh(propagate);
    assert_eq!(t.get(2), Some(302));
    assert_eq!(t.get(1), Some(300));
}
