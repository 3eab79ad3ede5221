//! Structural description of the catalogued bodies and the default roster.

use vstd::prelude::*;
use super::naif;

verus! {

/// Structural facts about one catalogued body.
#[derive(Debug, Clone, Copy)]
pub struct RosterEntry {
    /// NAIF id.
    pub id: i32,
    /// Display name.
    pub name: &'static str,
    /// Central body of the orbit; `None` means the Sun.
    pub parent: Option<i32>,
    /// The body carries Keplerian elements (bodies without them keep
    /// whatever state was last written).
    pub has_orbit: bool,
}

/// Every body with a parent is listed after some body with the parent's id.
pub open spec fn parents_first(roster: Seq<RosterEntry>) -> bool {
    forall|i: int| #![trigger roster[i]] 0 <= i < roster.len() && roster[i].parent is Some ==>
        exists|j: int| 0 <= j < i && roster[j].id == roster[i].parent->0
}

/// No two catalogued bodies share an id.
pub open spec fn ids_distinct(roster: Seq<RosterEntry>) -> bool {
    forall|i: int, j: int| 0 <= i < j < roster.len() ==> roster[i].id != roster[j].id
}

/// A planet or other body that orbits the Sun directly.
pub open spec fn heliocentric(id: i32, name: &'static str) -> RosterEntry {
    RosterEntry { id, name, parent: None, has_orbit: true }
}

/// A natural satellite orbiting the body `parent`.
pub open spec fn satellite(id: i32, name: &'static str, parent: i32) -> RosterEntry {
    RosterEntry { id, name, parent: Some(parent), has_orbit: true }
}

/// The default roster, entry by entry: the Sun (fixed at the origin, no
/// elements), Mercury, Venus, Earth, Luna around Earth, Mars, Phobos and
/// Deimos around Mars, Jupiter, Saturn, Uranus, Neptune.
pub open spec fn default_roster_spec() -> Seq<RosterEntry> {
    seq![
        RosterEntry { id: naif::SUN, name: "Sun", parent: None, has_orbit: false },
        heliocentric(naif::MERCURY, "Mercury"),
        heliocentric(naif::VENUS, "Venus"),
        heliocentric(naif::EARTH, "Earth"),
        satellite(naif::LUNA, "Luna", naif::EARTH),
        heliocentric(naif::MARS, "Mars"),
        satellite(naif::PHOBOS, "Phobos", naif::MARS),
        satellite(naif::DEIMOS, "Deimos", naif::MARS),
        heliocentric(naif::JUPITER, "Jupiter"),
        heliocentric(naif::SATURN, "Saturn"),
        heliocentric(naif::URANUS, "Uranus"),
        heliocentric(naif::NEPTUNE, "Neptune"),
    ]
}

/// The default roster: the Sun, the eight planets, Luna, Phobos and Deimos,
/// each satellite listed after its planet.
pub fn default_roster() -> (r: Vec<RosterEntry>)
    ensures
        r@ == default_roster_spec(),
        parents_first(r@),
        ids_distinct(r@),
{
    let r = vec![
        RosterEntry { id: naif::SUN, name: "Sun", parent: None, has_orbit: false },
        RosterEntry { id: naif::MERCURY, name: "Mercury", parent: None, has_orbit: true },
        RosterEntry { id: naif::VENUS, name: "Venus", parent: None, has_orbit: true },
        RosterEntry { id: naif::EARTH, name: "Earth", parent: None, has_orbit: true },
        RosterEntry { id: naif::LUNA, name: "Luna", parent: Some(naif::EARTH), has_orbit: true },
        RosterEntry { id: naif::MARS, name: "Mars", parent: None, has_orbit: true },
        RosterEntry { id: naif::PHOBOS, name: "Phobos", parent: Some(naif::MARS), has_orbit: true },
        RosterEntry { id: naif::DEIMOS, name: "Deimos", parent: Some(naif::MARS), has_orbit: true },
        RosterEntry { id: naif::JUPITER, name: "Jupiter", parent: None, has_orbit: true },
        RosterEntry { id: naif::SATURN, name: "Saturn", parent: None, has_orbit: true },
        RosterEntry { id: naif::URANUS, name: "Uranus", parent: None, has_orbit: true },
        RosterEntry { id: naif::NEPTUNE, name: "Neptune", parent: None, has_orbit: true },
    ];
    assert(r@ =~= default_roster_spec());
    assert forall|i: int| #![trigger r@[i]] 0 <= i < r@.len() && r@[i].parent is Some implies
        exists|j: int| 0 <= j < i && r@[j].id == r@[i].parent->0 by {
        if i == 4 {
            assert(r@[3].id == r@[4].parent->0);
        } else if i == 6 {
            assert(r@[5].id == r@[6].parent->0);
        } else {
            assert(i == 7);
            assert(r@[5].id == r@[7].parent->0);
        }
    }
    r
}

} // verus!
