//! The 1 Hz acquisition cadence and its drift-correcting sleep.
//!
//! Each tick works for a while (reading and appending), then sleeps for
//! the remainder of its second.  Because the sleep compensates for the
//! time the work took, consecutive tick starts are exactly one second
//! apart, with no error accumulating over any number of ticks.

use vstd::prelude::*;

verus! {

/// Nanoseconds in one second, the tick period.
pub const NANOS_PER_SEC: u64 = 1_000_000_000;

/// Sleep owed after a tick whose work took `elapsed` nanoseconds: the
/// remainder of the current second, and nothing when the work already
/// overran it.
pub open spec fn sleep_for(elapsed: nat) -> nat {
    if elapsed >= 1_000_000_000 {
        0
    } else {
        (1_000_000_000 - elapsed) as nat
    }
}

/// When the next tick starts: after this tick's work and the
/// drift-correcting sleep.
pub open spec fn next_tick_start(start: nat, work: nat) -> nat {
    start + work + sleep_for(work)
}

/// Start time of tick `i`, given the start of tick 0 and the work
/// durations of the ticks before it.
pub open spec fn tick_start(start0: nat, works: Seq<nat>, i: int) -> nat
    recommends
        0 <= i <= works.len(),
    decreases i,
{
    if i <= 0 {
        start0
    } else {
        next_tick_start(tick_start(start0, works, i - 1), works[i - 1])
    }
}

/// Compute the drift-correcting sleep for one tick.
pub fn sleep_nanos(elapsed: u64) -> (r: u64)
    ensures
        r == sleep_for(elapsed as nat),
        elapsed + r <= 1_000_000_000 || r == 0,
{
    if elapsed >= NANOS_PER_SEC {
        0
    } else {
        NANOS_PER_SEC - elapsed
    }
}

proof fn lemma_tick_start_linear(start0: nat, works: Seq<nat>, i: int)
    requires
        0 <= i <= works.len(),
        forall|k: int| 0 <= k < works.len() ==> #[trigger] works[k] <= 1_000_000_000,
    ensures
        tick_start(start0, works, i) == start0 + i * 1_000_000_000,
    decreases i,
{
    if i > 0 {
        lemma_tick_start_linear(start0, works, i - 1);
        assert(works[i - 1] <= 1_000_000_000);
        assert((i - 1) * 1_000_000_000 + 1_000_000_000 == i * 1_000_000_000) by (nonlinear_arith);
    }
}

/// Cadence law: as long as no tick's work exceeds one second, the span
/// between consecutive tick starts is exactly one second, and the start
/// of tick `i` is exactly `i` seconds after the start of tick 0 — the
/// compensation leaves no cumulative drift, however many ticks run.
pub proof fn lemma_cadence_no_drift(start0: nat, works: Seq<nat>)
    requires
        forall|k: int| 0 <= k < works.len() ==> #[trigger] works[k] <= 1_000_000_000,
    ensures
        forall|i: int|
            0 <= i < works.len() ==> #[trigger] tick_start(start0, works, i + 1) == tick_start(
                start0,
                works,
                i,
            ) + 1_000_000_000,
        forall|i: int|
            0 <= i <= works.len() ==> #[trigger] tick_start(start0, works, i) == start0 + i
                * 1_000_000_000,
{
    assert forall|i: int| 0 <= i <= works.len() implies #[trigger] tick_start(start0, works, i)
        == start0 + i * 1_000_000_000 by {
        lemma_tick_start_linear(start0, works, i);
    }
    assert forall|i: int| 0 <= i < works.len() implies #[trigger] tick_start(start0, works, i + 1)
        == tick_start(start0, works, i) + 1_000_000_000 by {
        lemma_tick_start_linear(start0, works, i);
        lemma_tick_start_linear(start0, works, i + 1);
        assert((i + 1) * 1_000_000_000 == i * 1_000_000_000 + 1_000_000_000) by (nonlinear_arith);
    }
}

/// Start time of tick `i` when each sleep may overshoot: tick `k`
/// oversleeps by `slacks[k]` nanoseconds beyond the computed remainder.
pub open spec fn tick_start_jittered(start0: nat, works: Seq<nat>, slacks: Seq<nat>, i: int) -> nat
    recommends
        0 <= i <= works.len(),
        works.len() == slacks.len(),
    decreases i,
{
    if i <= 0 {
        start0
    } else {
        next_tick_start(tick_start_jittered(start0, works, slacks, i - 1), works[i - 1]) + slacks[
            i - 1
        ]
    }
}

/// Cadence law under imperfect sleeps: when no tick's work exceeds one
/// second and every sleep overshoots by at most `jitter`, every span
/// between consecutive tick starts lies within one second plus the
/// jitter — whatever the tick's position in the series, so the bound
/// does not grow with the number of ticks.
pub proof fn lemma_cadence_bounded_jitter(
    start0: nat,
    works: Seq<nat>,
    slacks: Seq<nat>,
    jitter: nat,
)
    requires
        works.len() == slacks.len(),
        forall|k: int| 0 <= k < works.len() ==> #[trigger] works[k] <= 1_000_000_000,
        forall|k: int| 0 <= k < slacks.len() ==> #[trigger] slacks[k] <= jitter,
    ensures
        forall|i: int|
            0 <= i < works.len() ==> 1_000_000_000 <= #[trigger] (tick_start_jittered(
                start0,
                works,
                slacks,
                i + 1,
            ) - tick_start_jittered(start0, works, slacks, i)) <= 1_000_000_000 + jitter,
{
    assert forall|i: int| 0 <= i < works.len() implies 1_000_000_000 <= #[trigger] (
    tick_start_jittered(start0, works, slacks, i + 1) - tick_start_jittered(
        start0,
        works,
        slacks,
        i,
    )) <= 1_000_000_000 + jitter by {
        let here = tick_start_jittered(start0, works, slacks, i);
        assert(tick_start_jittered(start0, works, slacks, i + 1) == next_tick_start(here, works[i])
            + slacks[i]);
        assert(works[i] <= 1_000_000_000);
        assert(next_tick_start(here, works[i]) == here + 1_000_000_000);
    }
}

} // verus!
