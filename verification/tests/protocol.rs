//! The single-flight guard, the sampler lifecycle, the handoff plan,
//! the cadence and the verb dispatch.

use if1sec::cadence::{sleep_nanos, NANOS_PER_SEC};
use if1sec::dispatch::{
    dirtyconfig_enabled, exit_status, select_verb, CliError, ExitKind, Verb,
};
use if1sec::handoff::{plan_handoff, HandoffStep};
use if1sec::sampler::{Phase, Sampler, TickError};
use if1sec::singleton::{poll_guard, GuardVerdict};

fn text(v: Vec<char>) -> String {
    v.into_iter().collect()
}

#[test]
fn guard_reports_available_without_pid_file() {
    assert_eq!(poll_guard(false, false), GuardVerdict::Available);
    assert_eq!(poll_guard(false, true), GuardVerdict::Available);
}

#[test]
fn guard_reports_lock_state_of_existing_pid_file() {
    assert_eq!(poll_guard(true, true), GuardVerdict::Available);
    assert_eq!(poll_guard(true, false), GuardVerdict::Locked);
}

#[test]
fn winning_sampler_detaches_and_samples() {
    let mut s = Sampler::new("eth0");
    assert_eq!(s.current_phase(), Phase::Starting);
    s.on_lock_attempt(true);
    assert_eq!(s.current_phase(), Phase::Detached);
    s.on_pid_written();
    assert_eq!(s.current_phase(), Phase::Sampling);
}

#[test]
fn losing_sampler_is_fatal_and_never_ticks() {
    let mut winner = Sampler::new("eth0");
    let mut loser = Sampler::new("eth0");
    winner.on_lock_attempt(true);
    loser.on_lock_attempt(false);
    assert_eq!(winner.current_phase(), Phase::Detached);
    assert_eq!(loser.current_phase(), Phase::Fatal);
}

#[test]
fn clean_tick_emits_record_and_keeps_sampling() {
    let mut s = Sampler::new("eth0");
    s.on_lock_attempt(true);
    s.on_pid_written();
    let lines = s.on_tick(1_700_000_000, Some("1000\n"), Some("500\n")).unwrap();
    assert_eq!(text(lines), "eth0_tx.value 1700000000:500\neth0_rx.value 1700000000:1000\n");
    assert_eq!(s.current_phase(), Phase::Sampling);
}

#[test]
fn consecutive_ticks_append_in_order() {
    let mut s = Sampler::new("eth0");
    s.on_lock_attempt(true);
    s.on_pid_written();
    let mut cache = String::new();
    cache.push_str(&text(s.on_tick(10, Some("1\n"), Some("2\n")).unwrap()));
    cache.push_str(&text(s.on_tick(11, Some("3\n"), Some("4\n")).unwrap()));
    assert_eq!(
        cache,
        "eth0_tx.value 10:2\neth0_rx.value 10:1\neth0_tx.value 11:4\neth0_rx.value 11:3\n"
    );
}

#[test]
fn failed_rx_read_is_fatal() {
    let mut s = Sampler::new("eth0");
    s.on_lock_attempt(true);
    s.on_pid_written();
    assert_eq!(s.on_tick(10, None, Some("5")).unwrap_err(), TickError::RxRead);
    assert_eq!(s.current_phase(), Phase::Fatal);
}

#[test]
fn failed_parses_and_tx_read_are_fatal() {
    let mut s = Sampler::new("eth0");
    s.on_lock_attempt(true);
    s.on_pid_written();
    assert_eq!(s.on_tick(10, Some("x"), Some("5")).unwrap_err(), TickError::RxParse);

    let mut s = Sampler::new("eth0");
    s.on_lock_attempt(true);
    s.on_pid_written();
    assert_eq!(s.on_tick(10, Some("5"), None).unwrap_err(), TickError::TxRead);

    let mut s = Sampler::new("eth0");
    s.on_lock_attempt(true);
    s.on_pid_written();
    assert_eq!(s.on_tick(10, Some("5"), Some("")).unwrap_err(), TickError::TxParse);
    assert_eq!(s.current_phase(), Phase::Fatal);
}

#[test]
fn handoff_plan_streams_only_an_existing_cache() {
    assert_eq!(plan_handoff(true), HandoffStep::RenameThenStream);
    assert_eq!(plan_handoff(false), HandoffStep::EmitEmpty);
}

#[test]
fn sleep_compensates_for_work_time() {
    assert_eq!(sleep_nanos(0), NANOS_PER_SEC);
    assert_eq!(sleep_nanos(300_000_000), 700_000_000);
    assert_eq!(sleep_nanos(NANOS_PER_SEC), 0);
    assert_eq!(sleep_nanos(1_500_000_000), 0);
}

#[test]
fn tick_spans_are_exactly_one_second_without_delay() {
    // Tick starts with work below one second: each span is exactly the
    // period, wherever in the series it falls.
    let mut start: u64 = 5_000_000_000;
    let works = [0u64, 250_000_000, 999_999_999, 1_000_000_000];
    for w in works {
        let next = start + w + sleep_nanos(w);
        assert_eq!(next - start, NANOS_PER_SEC);
        start = next;
    }
}

#[test]
fn verb_selection() {
    assert_eq!(select_verb(1, None), Ok(Verb::Fetch));
    assert_eq!(select_verb(2, Some("config")), Ok(Verb::EmitConfig));
    assert_eq!(select_verb(2, Some("acquire")), Ok(Verb::Acquire));
    assert_eq!(select_verb(2, Some("autoconf")), Err(CliError::UnknownVerb));
    assert_eq!(select_verb(3, Some("config")), Err(CliError::WrongArgCount));
}

#[test]
fn exit_statuses_are_distinct_per_kind() {
    let kinds = [
        ExitKind::UnresolvedAlias,
        ExitKind::MissingSource,
        ExitKind::MissingStateDir,
        ExitKind::UnknownVerb,
        ExitKind::WrongArgCount,
        ExitKind::HandoffFailure,
        ExitKind::DaemonFailure,
    ];
    let mut seen: Vec<u8> = Vec::new();
    for k in kinds {
        let s = exit_status(k);
        assert!(!seen.contains(&s));
        seen.push(s);
    }
}

#[test]
fn dirtyconfig_capability_requires_exactly_one() {
    assert!(dirtyconfig_enabled(Some("1")));
    assert!(!dirtyconfig_enabled(Some("0")));
    assert!(!dirtyconfig_enabled(Some("11")));
    assert!(!dirtyconfig_enabled(None));
}
