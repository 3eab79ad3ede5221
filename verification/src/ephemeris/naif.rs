//! NAIF body identifiers, used even by the Keplerian fallback so backends
//! stay interchangeable.

use vstd::prelude::*;

verus! {

pub const SUN: i32 = 10;
pub const MERCURY: i32 = 199;
pub const VENUS: i32 = 299;
pub const EARTH: i32 = 399;
pub const LUNA: i32 = 301;
pub const MARS: i32 = 499;
pub const PHOBOS: i32 = 401;
pub const DEIMOS: i32 = 402;
pub const JUPITER: i32 = 599;
pub const SATURN: i32 = 699;
pub const URANUS: i32 = 799;
pub const NEPTUNE: i32 = 899;

/// The NAIF ids of the catalogued bodies: the Sun 10, each planet N99
/// (its body centre), Luna 301, Phobos 401 and Deimos 402.
pub proof fn lemma_naif_ids()
    ensures
        SUN == 10 && MERCURY == 199 && VENUS == 299 && EARTH == 399 && MARS == 499,
        JUPITER == 599 && SATURN == 699 && URANUS == 799 && NEPTUNE == 899,
        LUNA == 301 && PHOBOS == 401 && DEIMOS == 402,
{
}

} // verus!
