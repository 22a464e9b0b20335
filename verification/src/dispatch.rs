//! Verb selection and the process's exit-status taxonomy.

use crate::ident::SetupError;
use crate::text::str_eq_chars;
use vstd::prelude::*;

verus! {

/// The three verbs a plugin invocation selects by its arguments.
#[derive(Clone, Copy, Debug, PartialEq, Eq, Structural)]
pub enum Verb {
    /// No argument: ensure a sampler runs, then hand the cache over.
    Fetch,
    /// `config`: emit the graph metadata (and, with the dirty-config
    /// capability, hand the cache over right after).
    EmitConfig,
    /// `acquire`: run the sampler daemon directly.
    Acquire,
}

/// Why the invocation's arguments were rejected.
#[derive(Clone, Copy, Debug, PartialEq, Eq, Structural)]
pub enum CliError {
    /// One argument was given, but it names no verb.
    UnknownVerb,
    /// More than one argument was given.
    WrongArgCount,
}

/// Select the verb from the argument count (program name included)
/// and the first argument.
pub fn select_verb(arg_count: usize, first_arg: Option<&str>) -> (r: Result<Verb, CliError>)
    ensures
        match r {
            Ok(Verb::Fetch) => arg_count <= 1,
            Ok(Verb::EmitConfig) => arg_count == 2 && first_arg is Some && first_arg->0@
                == "config"@,
            Ok(Verb::Acquire) => arg_count == 2 && first_arg is Some && first_arg->0@
                == "acquire"@,
            Err(CliError::UnknownVerb) => arg_count == 2 && (first_arg is None || (first_arg->0@
                != "config"@ && first_arg->0@ != "acquire"@)),
            Err(CliError::WrongArgCount) => arg_count > 2,
        },
{
    if arg_count <= 1 {
        Ok(Verb::Fetch)
    } else if arg_count == 2 {
        match first_arg {
            Some(a) => {
                if str_eq_chars(a, "config") {
                    Ok(Verb::EmitConfig)
                } else if str_eq_chars(a, "acquire") {
                    Ok(Verb::Acquire)
                } else {
                    Err(CliError::UnknownVerb)
                }
            },
            None => Err(CliError::UnknownVerb),
        }
    } else {
        Err(CliError::WrongArgCount)
    }
}

/// The distinct failure kinds a process run can end with.
#[derive(Clone, Copy, Debug, PartialEq, Eq, Structural)]
pub enum ExitKind {
    /// The invocation name resolves to no interface.
    UnresolvedAlias,
    /// A counter source file is missing.
    MissingSource,
    /// The mandatory state-directory variable is not set.
    MissingStateDir,
    /// The single argument names no verb.
    UnknownVerb,
    /// More than one argument was given.
    WrongArgCount,
    /// The handoff's rename or streaming failed.
    HandoffFailure,
    /// The sampler daemon could not start or a tick failed.
    DaemonFailure,
}

/// The documented exit status of each failure kind.
pub open spec fn exit_status_spec(k: ExitKind) -> u8 {
    match k {
        ExitKind::MissingSource => 2,
        ExitKind::UnresolvedAlias => 3,
        ExitKind::MissingStateDir => 4,
        ExitKind::UnknownVerb => 5,
        ExitKind::WrongArgCount => 6,
        ExitKind::HandoffFailure => 7,
        ExitKind::DaemonFailure => 8,
    }
}

/// Exit status to terminate with for one failure kind.
pub fn exit_status(k: ExitKind) -> (r: u8)
    ensures
        r == exit_status_spec(k),
{
    match k {
        ExitKind::MissingSource => 2,
        ExitKind::UnresolvedAlias => 3,
        ExitKind::MissingStateDir => 4,
        ExitKind::UnknownVerb => 5,
        ExitKind::WrongArgCount => 6,
        ExitKind::HandoffFailure => 7,
        ExitKind::DaemonFailure => 8,
    }
}

/// Every failure kind terminates with its own status, so callers can
/// script against them.
pub proof fn lemma_exit_statuses_distinct(a: ExitKind, b: ExitKind)
    ensures
        a != b ==> exit_status_spec(a) != exit_status_spec(b),
{
}

/// The failure kind of a startup error.
pub fn setup_exit_kind(e: SetupError) -> (k: ExitKind)
    ensures
        k == match e {
            SetupError::UnresolvedAlias => ExitKind::UnresolvedAlias,
            SetupError::MissingTxSource => ExitKind::MissingSource,
            SetupError::MissingRxSource => ExitKind::MissingSource,
            SetupError::MissingStateDir => ExitKind::MissingStateDir,
        },
{
    match e {
        SetupError::UnresolvedAlias => ExitKind::UnresolvedAlias,
        SetupError::MissingTxSource => ExitKind::MissingSource,
        SetupError::MissingRxSource => ExitKind::MissingSource,
        SetupError::MissingStateDir => ExitKind::MissingStateDir,
    }
}

/// Whether the dirty-config capability is advertised: the capability
/// variable holds exactly `1`.
pub fn dirtyconfig_enabled(value: Option<&str>) -> (r: bool)
    ensures
        r <==> value is Some && value->0@ == "1"@,
{
    match value {
        Some(v) => str_eq_chars(v, "1"),
        None => false,
    }
}

} // verus!
