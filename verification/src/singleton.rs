//! Single-flight enforcement over the PID file's exclusive lock.
//!
//! The lock's state — not the file's content — is the coordination
//! primitive: whoever holds it is the active sampler for the interface.
//! A winner holds the lock for its whole lifetime, so within one
//! contention window there is no release, and at most one of any set
//! of racing launch attempts can succeed.

use vstd::prelude::*;

verus! {

/// A non-blocking exclusive acquisition attempt by process `pid`
/// succeeds exactly when nobody holds the lock.
pub open spec fn lock_grants(holder: Option<nat>) -> bool {
    holder is None
}

/// The holder after an acquisition attempt by `pid`.
pub open spec fn lock_after(holder: Option<nat>, pid: nat) -> Option<nat> {
    if holder is None {
        Some(pid)
    } else {
        holder
    }
}

/// The holder after a sequence of acquisition attempts, oldest first.
pub open spec fn lock_after_all(holder: Option<nat>, attempts: Seq<nat>) -> Option<nat>
    decreases attempts.len(),
{
    if attempts.len() == 0 {
        holder
    } else {
        lock_after_all(lock_after(holder, attempts[0]), attempts.skip(1))
    }
}

/// Whether attempt `i` of the sequence succeeds: the lock is free when
/// its turn comes.
pub open spec fn attempt_wins(holder: Option<nat>, attempts: Seq<nat>, i: int) -> bool
    recommends
        0 <= i < attempts.len(),
{
    lock_grants(lock_after_all(holder, attempts.take(i)))
}

proof fn lemma_lock_after_all_app(holder: Option<nat>, a: Seq<nat>, b: Seq<nat>)
    ensures
        lock_after_all(holder, a + b) == lock_after_all(lock_after_all(holder, a), b),
    decreases a.len(),
{
    if a.len() == 0 {
        assert(a + b =~= b);
    } else {
        assert((a + b)[0] == a[0]);
        assert((a + b).skip(1) =~= a.skip(1) + b);
        lemma_lock_after_all_app(lock_after(holder, a[0]), a.skip(1), b);
    }
}

proof fn lemma_held_stays(holder: Option<nat>, attempts: Seq<nat>)
    requires
        holder is Some,
    ensures
        lock_after_all(holder, attempts) == holder,
    decreases attempts.len(),
{
    if attempts.len() > 0 {
        assert(lock_after(holder, attempts[0]) == holder);
        lemma_held_stays(holder, attempts.skip(1));
    }
}

/// Single-flight law: of any sequence of concurrent launch attempts on
/// the same interface's PID file, at most one acquires the exclusive
/// lock — once some attempt has won, every later attempt fails.
pub proof fn lemma_single_flight(holder: Option<nat>, attempts: Seq<nat>, i: int, j: int)
    requires
        0 <= i < j < attempts.len(),
        attempt_wins(holder, attempts, i),
    ensures
        !attempt_wins(holder, attempts, j),
{
    let before_i = lock_after_all(holder, attempts.take(i));
    assert(before_i is None);
    let after_i = lock_after_all(holder, attempts.take(i + 1));
    assert(attempts.take(i + 1) =~= attempts.take(i) + seq![attempts[i]]);
    lemma_lock_after_all_app(holder, attempts.take(i), seq![attempts[i]]);
    let s1 = seq![attempts[i]];
    assert(s1.len() == 1 && s1[0] == attempts[i]);
    assert(s1.skip(1) =~= Seq::<nat>::empty());
    assert(lock_after_all(before_i, s1) == lock_after_all(
        lock_after(before_i, attempts[i]),
        s1.skip(1),
    ));
    assert(lock_after_all(lock_after(before_i, attempts[i]), s1.skip(1)) == lock_after(
        before_i,
        attempts[i],
    ));
    assert(after_i == Some(attempts[i]));
    assert(attempts.take(j) =~= attempts.take(i + 1) + attempts.take(j).skip(i + 1));
    lemma_lock_after_all_app(holder, attempts.take(i + 1), attempts.take(j).skip(i + 1));
    lemma_held_stays(after_i, attempts.take(j).skip(i + 1));
    assert(lock_after_all(holder, attempts.take(j)) == after_i);
}

/// What the single-flight guard reports about the PID file.
#[derive(Clone, Copy, Debug, PartialEq, Eq, Structural)]
pub enum GuardVerdict {
    /// No active sampler: the file is absent, or its lock could be taken.
    Available,
    /// Another sampler holds the lock and is active.
    Locked,
}

/// Decide from the PID file's observed state whether a sampler is
/// already running.
///
/// The check is advisory: the file is never created or truncated here,
/// and a `Available` verdict only licenses racing to start a sampler,
/// whose own lock acquisition settles the race.
pub fn poll_guard(pid_file_exists: bool, lock_available: bool) -> (r: GuardVerdict)
    ensures
        r == GuardVerdict::Available <==> (!pid_file_exists || lock_available),
        r == GuardVerdict::Locked <==> (pid_file_exists && !lock_available),
{
    if !pid_file_exists || lock_available {
        GuardVerdict::Available
    } else {
        GuardVerdict::Locked
    }
}

} // verus!
