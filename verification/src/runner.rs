//! Pacing decisions of the simulation driver: how many ticks one loop
//! iteration may retire and on which ticks telemetry frames go out.
//!
//! The wall-clock budget that feeds these decisions (wall seconds × warp
//! ÷ dt) is floating-point work done by the host.

use vstd::prelude::*;

verus! {

/// Most ticks a single driver iteration retires, so a long stall never
/// triggers a runaway catch-up burst.
pub const MAX_TICKS_PER_ITERATION: u32 = 50_000;

/// Ticks to retire this iteration, given what the budget allows.
pub fn cap_ticks(budget_ticks: u32) -> (n: u32)
    ensures
        n == if budget_ticks <= MAX_TICKS_PER_ITERATION { budget_ticks } else { MAX_TICKS_PER_ITERATION },
{
    if budget_ticks <= MAX_TICKS_PER_ITERATION {
        budget_ticks
    } else {
        MAX_TICKS_PER_ITERATION
    }
}

/// Telemetry stride in force: a requested stride of 0 means every tick.
pub fn normalize_stride(requested: u32) -> (s: u32)
    ensures
        s == if requested == 0 { 1 } else { requested },
        s >= 1,
{
    if requested == 0 { 1 } else { requested }
}

/// A frame is broadcast after tick number `tick` when it is a multiple of
/// the stride.
pub fn telemetry_due(tick: u64, stride: u32) -> (due: bool)
    requires
        stride >= 1,
    ensures
        due == (tick % (stride as u64) == 0),
{
    tick % (stride as u64) == 0
}

/// Ticks, in order, after which frames go out when `count` ticks are
/// retired starting after tick `start`: every multiple of the stride in
/// `(start, start + count]`. An iteration that retires no tick still sends
/// one frame at `start` so idle or paused clients stay current.
pub fn frame_ticks(start: u64, count: u32, stride: u32) -> (ticks: Vec<u64>)
    requires
        stride >= 1,
        start + count <= u64::MAX,
    ensures
        count == 0 ==> ticks@ == seq![start],
        count > 0 ==> forall|j: int| 0 <= j < ticks@.len() ==> {
            &&& start < #[trigger] ticks@[j] <= start + count
            &&& ticks@[j] % (stride as u64) == 0
        },
        count > 0 ==> forall|t: u64| start < t <= start + count && t % (stride as u64) == 0
            ==> ticks@.contains(t),
        forall|j: int, k: int| 0 <= j < k < ticks@.len() ==> ticks@[j] < ticks@[k],
{
    let mut out: Vec<u64> = Vec::new();
    if count == 0 {
        out.push(start);
        return out;
    }
    let mut i: u32 = 0;
    while i < count
        invariant
            stride >= 1,
            start + count <= u64::MAX,
            i <= count,
            forall|j: int| 0 <= j < out@.len() ==> {
                &&& start < #[trigger] out@[j] <= start + i
                &&& out@[j] % (stride as u64) == 0
            },
            forall|t: u64| start < t <= start + i && t % (stride as u64) == 0 ==> out@.contains(t),
            forall|j: int, k: int| 0 <= j < k < out@.len() ==> out@[j] < out@[k],
        decreases count - i,
    {
        let ghost prev = out@;
        i = i + 1;
        let t: u64 = start + i as u64;
        if telemetry_due(t, stride) {
            out.push(t);
        }
        proof {
            assert forall|u: u64| start < u <= start + i && u % (stride as u64) == 0 implies out@.contains(u) by {
                if u == t {
                    assert(out@[out@.len() - 1] == t);
                } else {
                    assert(prev.contains(u));
                    let k = choose|k: int| 0 <= k < prev.len() && prev[k] == u;
                    assert(out@[k] == u);
                }
            }
        }
    }
    out
}

/// One iteration retires at most fifty thousand ticks.
pub proof fn lemma_tick_cap_value()
    ensures
        MAX_TICKS_PER_ITERATION == 50_000,
{
}

} // verus!
