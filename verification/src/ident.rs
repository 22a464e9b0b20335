//! Interface-identity resolution.
//!
//! The sampled interface is named solely by the program's own
//! invocation name: the suffix after the last `_` separator.  The two
//! counter source files derived from it must both exist before any
//! lock is taken or any sampling starts; startup fails otherwise.

use vstd::prelude::*;
use vstd::string::StrSliceExecFns;

verus! {

/// A fatal startup failure: configuration checks precede every lock
/// attempt and every tick.
#[derive(Clone, Copy, Debug, PartialEq, Eq, Structural)]
pub enum SetupError {
    /// The invocation name holds no separator, so no interface is named.
    UnresolvedAlias,
    /// The transmit-counter source file does not exist.
    MissingTxSource,
    /// The receive-counter source file does not exist.
    MissingRxSource,
    /// The mandatory state-directory variable is not set.
    MissingStateDir,
}

/// Index of the last `_` in `s`, or -1 if there is none.
pub open spec fn last_sep_at(s: Seq<char>) -> int
    decreases s.len(),
{
    if s.len() == 0 {
        -1
    } else if s.last() == '_' {
        s.len() - 1
    } else {
        last_sep_at(s.drop_last())
    }
}

/// The interface an invocation name resolves to: the suffix after the
/// last separator.
pub open spec fn resolved_interface(s: Seq<char>) -> Seq<char> {
    s.subrange(last_sep_at(s) + 1, s.len() as int)
}

proof fn lemma_last_sep_none(s: Seq<char>)
    requires
        forall|j: int| 0 <= j < s.len() ==> s[j] != '_',
    ensures
        last_sep_at(s) == -1,
    decreases s.len(),
{
    if s.len() > 0 {
        assert(s.last() != '_');
        lemma_last_sep_none(s.drop_last());
    }
}

proof fn lemma_last_sep_found(s: Seq<char>, k: int)
    requires
        0 <= k < s.len(),
        s[k] == '_',
        forall|j: int| k < j < s.len() ==> s[j] != '_',
    ensures
        last_sep_at(s) == k,
    decreases s.len(),
{
    if k == s.len() - 1 {
        assert(s.last() == '_');
    } else {
        assert(s.last() != '_');
        assert(s.drop_last()[k] == s[k]);
        lemma_last_sep_found(s.drop_last(), k);
    }
}

/// Resolve the interface from the invocation name.
///
/// Succeeds exactly when the name holds a `_` separator; the interface
/// is everything after the last one.
pub fn resolve_interface<'a>(invocation: &'a str) -> (r: Result<&'a str, SetupError>)
    ensures
        match r {
            Ok(iface) => last_sep_at(invocation@) >= 0 && iface@ == resolved_interface(
                invocation@,
            ),
            Err(e) => e == SetupError::UnresolvedAlias && last_sep_at(invocation@) == -1,
        },
{
    let n = invocation.unicode_len();
    let mut i: usize = n;
    while i > 0
        invariant
            n == invocation@.len(),
            i <= n,
            forall|j: int| i <= j < n ==> invocation@[j] != '_',
        decreases i,
    {
        if invocation.get_char(i - 1) == '_' {
            proof {
                lemma_last_sep_found(invocation@, i - 1);
            }
            let iface = invocation.substring_char(i, n);
            return Ok(iface);
        }
        i -= 1;
    }
    proof {
        lemma_last_sep_none(invocation@);
    }
    Err(SetupError::UnresolvedAlias)
}

/// Check that both counter source files exist, the transmit side first.
///
/// The flags say whether the derived transmit and receive source paths
/// exist on the filesystem; the first missing one is the failure
/// reported.
pub fn validate_sources(tx_exists: bool, rx_exists: bool) -> (r: Result<(), SetupError>)
    ensures
        r == if !tx_exists {
            Err::<(), SetupError>(SetupError::MissingTxSource)
        } else if !rx_exists {
            Err::<(), SetupError>(SetupError::MissingRxSource)
        } else {
            Ok::<(), SetupError>(())
        },
{
    if !tx_exists {
        Err(SetupError::MissingTxSource)
    } else if !rx_exists {
        Err(SetupError::MissingRxSource)
    } else {
        Ok(())
    }
}

/// Require the mandatory state-directory variable.
pub fn require_statedir<'a>(value: Option<&'a str>) -> (r: Result<&'a str, SetupError>)
    ensures
        match r {
            Ok(d) => value is Some && d@ == value->0@,
            Err(e) => e == SetupError::MissingStateDir && value is None,
        },
{
    match value {
        Some(d) => Ok(d),
        None => Err(SetupError::MissingStateDir),
    }
}

} // verus!
