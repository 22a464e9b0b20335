//! Identity resolution, source validation and path derivation.

use if1sec::dispatch::{exit_status, setup_exit_kind, ExitKind};
use if1sec::ident::{require_statedir, resolve_interface, validate_sources, SetupError};
use if1sec::paths::{cache_path, pid_path, rx_path, speed_path, tx_path};

fn text(v: Vec<char>) -> String {
    v.into_iter().collect()
}

#[test]
fn resolves_suffix_after_last_separator() {
    let r = resolve_interface("if1sec_eth0");
    assert_eq!(r, Ok("eth0"));
}

#[test]
fn resolves_last_of_several_separators() {
    assert_eq!(resolve_interface("if1sec_br_lan"), Ok("lan"));
}

#[test]
fn resolves_empty_suffix_after_trailing_separator() {
    assert_eq!(resolve_interface("if1sec_"), Ok(""));
}

#[test]
fn unresolved_alias_without_separator() {
    let r = resolve_interface("if1sec");
    assert_eq!(r, Err(SetupError::UnresolvedAlias));
}

#[test]
fn unresolved_alias_on_empty_name() {
    assert_eq!(resolve_interface(""), Err(SetupError::UnresolvedAlias));
}

#[test]
fn validate_sources_accepts_both_present() {
    assert_eq!(validate_sources(true, true), Ok(()));
}

#[test]
fn validate_sources_reports_missing_tx_first() {
    assert_eq!(validate_sources(false, true), Err(SetupError::MissingTxSource));
    assert_eq!(validate_sources(false, false), Err(SetupError::MissingTxSource));
}

#[test]
fn validate_sources_reports_missing_rx() {
    assert_eq!(validate_sources(true, false), Err(SetupError::MissingRxSource));
}

#[test]
fn missing_rx_source_maps_to_missing_source_status() {
    let e = validate_sources(true, false).unwrap_err();
    assert_eq!(exit_status(setup_exit_kind(e)), exit_status(ExitKind::MissingSource));
    assert_eq!(exit_status(setup_exit_kind(e)), 2);
}

#[test]
fn statedir_is_mandatory() {
    assert_eq!(require_statedir(Some("/var/lib/munin")), Ok("/var/lib/munin"));
    assert_eq!(require_statedir(None), Err(SetupError::MissingStateDir));
}

#[test]
fn counter_source_paths() {
    assert_eq!(text(rx_path("eth0")), "/sys/class/net/eth0/statistics/rx_bytes");
    assert_eq!(text(tx_path("eth0")), "/sys/class/net/eth0/statistics/tx_bytes");
    assert_eq!(text(speed_path("eth0")), "/sys/class/net/eth0/speed");
}

#[test]
fn state_paths_derive_from_statedir_and_name() {
    assert_eq!(
        text(cache_path("/var/lib/munin", "if1sec_eth0")),
        "/var/lib/munin/munin.if1sec_eth0.value"
    );
    assert_eq!(text(pid_path("/var/lib/munin", "if1sec_eth0")), "/var/lib/munin/if1sec_eth0.pid");
}
