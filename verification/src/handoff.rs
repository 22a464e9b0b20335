//! The atomic cache-file handoff between the sampler and a reader.
//!
//! A reader never reads the cache file in place: it renames the file to
//! a temporary name in the same directory — rename is atomic there —
//! and streams the frozen content out.  Whatever the daemon appends
//! after the rename lands in a freshly created cache file.  A missing
//! cache file is the expected first-poll state and yields an empty
//! result, not an error.

use vstd::prelude::*;

verus! {

/// The cache file as the two processes see it: absent, or present with
/// everything appended so far.
pub enum CacheState {
    /// No cache file: before the first tick, or right after a handoff.
    Absent,
    /// The cache file holds the appended records.
    Present(Seq<char>),
}

/// The cache after the daemon appends one tick's record: created on
/// first write, extended in place afterwards.
pub open spec fn after_append(c: CacheState, lines: Seq<char>) -> CacheState {
    match c {
        CacheState::Absent => CacheState::Present(lines),
        CacheState::Present(x) => CacheState::Present(x + lines),
    }
}

/// What one handoff invocation streams out: the frozen content, or
/// nothing where no cache file exists.
pub open spec fn handoff_output(c: CacheState) -> Seq<char> {
    match c {
        CacheState::Absent => Seq::<char>::empty(),
        CacheState::Present(x) => x,
    }
}

/// The cache after a handoff: renamed away, so absent either way.
pub open spec fn after_handoff(c: CacheState) -> CacheState {
    CacheState::Absent
}

/// The cache after a sequence of tick records is appended, oldest first.
pub open spec fn after_appends(c: CacheState, ticks: Seq<Seq<char>>) -> CacheState
    decreases ticks.len(),
{
    if ticks.len() == 0 {
        c
    } else {
        after_appends(after_append(c, ticks[0]), ticks.skip(1))
    }
}

/// All the records of a sequence of ticks, in order.
pub open spec fn concat_all(ticks: Seq<Seq<char>>) -> Seq<char>
    decreases ticks.len(),
{
    if ticks.len() == 0 {
        Seq::<char>::empty()
    } else {
        ticks[0] + concat_all(ticks.skip(1))
    }
}

proof fn lemma_after_appends_present(x: Seq<char>, ticks: Seq<Seq<char>>)
    ensures
        after_appends(CacheState::Present(x), ticks) == CacheState::Present(
            x + concat_all(ticks),
        ),
    decreases ticks.len(),
{
    if ticks.len() == 0 {
        assert(x + concat_all(ticks) =~= x);
    } else {
        lemma_after_appends_present(x + ticks[0], ticks.skip(1));
        assert((x + ticks[0]) + concat_all(ticks.skip(1)) =~= x + concat_all(ticks));
    }
}

/// Handoff law: the records of ticks appended while no reader ran are
/// delivered by the next single handoff — all of them, in order,
/// exactly once — and the handoff right after it delivers nothing.
pub proof fn lemma_handoff_exactly_once(ticks: Seq<Seq<char>>)
    ensures
        handoff_output(after_appends(CacheState::Absent, ticks)) == concat_all(ticks),
        handoff_output(after_handoff(after_appends(CacheState::Absent, ticks))) == Seq::<
            char,
        >::empty(),
{
    if ticks.len() == 0 {
    } else {
        assert(after_append(CacheState::Absent, ticks[0]) == CacheState::Present(ticks[0]));
        lemma_after_appends_present(ticks[0], ticks.skip(1));
    }
}

/// The outputs of `n` consecutive handoffs with nothing appended in
/// between.
pub open spec fn handoff_outputs(c: CacheState, n: nat) -> Seq<Seq<char>>
    decreases n,
{
    if n == 0 {
        Seq::<Seq<char>>::empty()
    } else {
        seq![handoff_output(c)] + handoff_outputs(after_handoff(c), (n - 1) as nat)
    }
}

/// Absent-cache idempotence law: against a nonexistent cache file,
/// every one of any number of consecutive handoffs delivers an empty
/// result, and the cache stays absent.
pub proof fn lemma_absent_handoffs_empty(n: nat, k: int)
    requires
        0 <= k < n,
    ensures
        handoff_outputs(CacheState::Absent, n)[k] == Seq::<char>::empty(),
        after_appends(CacheState::Absent, Seq::<Seq<char>>::empty()) == CacheState::Absent,
    decreases n,
{
    lemma_handoff_outputs_len(CacheState::Absent, n);
    lemma_handoff_outputs_len(CacheState::Absent, (n - 1) as nat);
    let s = handoff_outputs(CacheState::Absent, n);
    let rest = handoff_outputs(CacheState::Absent, (n - 1) as nat);
    assert(s == seq![handoff_output(CacheState::Absent)] + rest);
    if k == 0 {
        assert(s[0] == handoff_output(CacheState::Absent));
    } else {
        assert(s[k] == rest[k - 1]);
        lemma_absent_handoffs_empty((n - 1) as nat, k - 1);
    }
}

proof fn lemma_handoff_outputs_len(c: CacheState, n: nat)
    ensures
        handoff_outputs(c, n).len() == n,
    decreases n,
{
    if n > 0 {
        lemma_handoff_outputs_len(after_handoff(c), (n - 1) as nat);
    }
}

/// What a handoff invocation must do, decided from whether the cache
/// file exists.
#[derive(Clone, Copy, Debug, PartialEq, Eq, Structural)]
pub enum HandoffStep {
    /// No cache file: deliver an empty result, touching nothing.
    EmitEmpty,
    /// Rename the cache file into the same directory, then stream the
    /// renamed file's full content.
    RenameThenStream,
}

/// Plan one handoff.  A missing cache file is an expected state, never
/// an error: the first poll may precede the first tick.
pub fn plan_handoff(cache_exists: bool) -> (r: HandoffStep)
    ensures
        r == HandoffStep::RenameThenStream <==> cache_exists,
        r == HandoffStep::EmitEmpty <==> !cache_exists,
{
    if cache_exists {
        HandoffStep::RenameThenStream
    } else {
        HandoffStep::EmitEmpty
    }
}

} // verus!
