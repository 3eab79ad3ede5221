//! Gating of the onboard navigation filter: when it resets, waits, seeds
//! itself from ground truth, and which range readings it folds in.
//!
//! The filter arithmetic (EKF predict / update over a 6-state vector and a
//! 6×6 covariance) is floating-point work done by the host.

use vstd::prelude::*;
use crate::ephemeris::naif;

verus! {

/// What one tick of the navigation filter does.
#[derive(Debug, Clone, Copy, PartialEq, Eq, Structural)]
pub enum NavStep {
    /// Filter disabled: publish an empty estimate; when `reset_filter`,
    /// also return the filter to its defaults (dropping its seed).
    Disabled { reset_filter: bool },
    /// Enabled but no spacecraft or no ephemeris: leave everything as is.
    Wait,
    /// Enabled: when `seed`, first seed the state from ground truth and zero
    /// the update counter; then predict and fold in the range readings.
    Run { seed: bool },
}

/// Decision of a navigation tick.
pub open spec fn nav_step_spec(enabled: bool, initialized: bool, has_ship: bool, has_ephemeris: bool) -> NavStep {
    if !enabled {
        NavStep::Disabled { reset_filter: initialized }
    } else if !has_ship || !has_ephemeris {
        NavStep::Wait
    } else {
        NavStep::Run { seed: !initialized }
    }
}

/// Decide what this tick of the navigation filter does.
pub fn nav_step(enabled: bool, initialized: bool, has_ship: bool, has_ephemeris: bool) -> (s: NavStep)
    ensures
        s == nav_step_spec(enabled, initialized, has_ship, has_ephemeris),
{
    if !enabled {
        NavStep::Disabled { reset_filter: initialized }
    } else if !has_ship || !has_ephemeris {
        NavStep::Wait
    } else {
        NavStep::Run { seed: !initialized }
    }
}

/// Whether a range reading to `body_id` is folded into the filter: the Sun
/// is skipped (poorly conditioned at the origin, and it returns no echo), as
/// are bodies the ephemeris does not know.
pub fn uses_range_reading(body_id: i32, body_known: bool) -> (b: bool)
    ensures
        b == (body_id != naif::SUN && body_known),
{
    body_id != naif::SUN && body_known
}

/// Filter initialization flag after a tick that took `step`.
pub open spec fn initialized_after(initialized: bool, step: NavStep) -> bool {
    match step {
        NavStep::Disabled { .. } => false,
        NavStep::Wait => initialized,
        NavStep::Run { .. } => true,
    }
}

/// The filter seeds itself exactly once per engagement: a running tick
/// seeds iff the filter was not yet initialized, and is initialized after.
pub proof fn lemma_seed_once(initialized: bool, has_ship: bool, has_ephemeris: bool)
    ensures
        ({
            let s = nav_step_spec(true, initialized, has_ship, has_ephemeris);
            &&& (s is Run ==> (s->seed <==> !initialized))
            &&& (s is Run ==> initialized_after(initialized, s))
        }),
{
}

/// A disabled filter is never left initialized, so re-enabling it re-seeds.
pub proof fn lemma_disable_clears(initialized: bool, has_ship: bool, has_ephemeris: bool)
    ensures
        !initialized_after(initialized, nav_step_spec(false, initialized, has_ship, has_ephemeris)),
        nav_step_spec(true, initialized_after(initialized, nav_step_spec(false, initialized, has_ship, has_ephemeris)), true, true)
            == (NavStep::Run { seed: true }),
{
}

/// What a navigation tick does, in terms of its switches: a disabled filter
/// publishes nothing and resets exactly when it had been seeded; an enabled
/// one waits while the ship or the ephemeris is missing, and otherwise runs,
/// seeding first exactly when it has not been seeded.
pub proof fn lemma_nav_decision(enabled: bool, initialized: bool, has_ship: bool, has_ephemeris: bool)
    ensures
        ({
            let s = nav_step_spec(enabled, initialized, has_ship, has_ephemeris);
            &&& (s is Disabled <==> !enabled)
            &&& (s is Disabled ==> (s->reset_filter <==> initialized))
            &&& (s is Wait <==> enabled && (!has_ship || !has_ephemeris))
            &&& (s is Run <==> enabled && has_ship && has_ephemeris)
            &&& (s is Run ==> (s->seed <==> !initialized))
            &&& (s is Disabled ==> !initialized_after(initialized, s))
            &&& (s is Wait ==> initialized_after(initialized, s) == initialized)
            &&& (s is Run ==> initialized_after(initialized, s))
        }),
{
}

} // verus!
