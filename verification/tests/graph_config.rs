//! The graph-metadata template.

use if1sec::metadata::{config_output, MetadataError};

fn text(v: Vec<char>) -> String {
    v.into_iter().collect()
}

fn expected_config(iface: &str, speed: u64) -> String {
    let max = speed / 8 * 1_000_000;
    let mut s = String::new();
    s.push_str(&format!("graph_title Interface 1sec stats for {iface}\n"));
    s.push_str("graph_category network\n");
    s.push_str("graph_args --base 1000\n");
    s.push_str("graph_data_size custom 1d, 1s for 1d, 5s for 2d, 10s for 7d, 1m for 1t, 5m for 1y\n");
    s.push_str("graph_vlabel bits in (-) / out (+)\n");
    s.push_str(&format!("graph_info This graph shows the traffic of the {iface} network interface. Please note that the traffic is shown in bits per second, not bytes.\n"));
    s.push_str("update_rate 1\n");
    s.push_str(&format!("{iface}_rx.label {iface} bits\n"));
    s.push_str(&format!("{iface}_rx.cdef {iface}_rx,8,*\n"));
    s.push_str(&format!("{iface}_rx.type DERIVE\n"));
    s.push_str(&format!("{iface}_rx.min 0\n"));
    s.push_str(&format!("{iface}_rx.graph no\n"));
    s.push_str(&format!("{iface}_tx.label bps\n"));
    s.push_str(&format!("{iface}_tx.cdef {iface}_tx,8,*\n"));
    s.push_str(&format!("{iface}_tx.type DERIVE\n"));
    s.push_str(&format!("{iface}_tx.min 0\n"));
    s.push_str(&format!("{iface}_tx.negative {iface}_rx\n"));
    s.push_str(&format!("{iface}_rx.max {max}\n"));
    s.push_str(&format!("{iface}_tx.max {max}\n"));
    s.push_str(&format!("{iface}_rx.info Received traffic on the {iface} interface. Maximum speed is {speed} Mbps.\n"));
    s.push_str(&format!("{iface}_tx.info Transmitted traffic on the {iface} interface. Maximum speed {speed} Mbps.\n"));
    s
}

#[test]
fn missing_speed_file_falls_back_to_gigabit() {
    let lines = config_output("eth0", None).unwrap();
    assert_eq!(text(lines), expected_config("eth0", 1000));
}

#[test]
fn zero_speed_falls_back_to_gigabit() {
    let lines = config_output("eth0", Some("0\n")).unwrap();
    assert_eq!(text(lines), expected_config("eth0", 1000));
}

#[test]
fn reported_speed_sets_the_byte_limit() {
    let lines = config_output("eth0", Some("10000\n")).unwrap();
    let rendered = text(lines);
    assert_eq!(rendered, expected_config("eth0", 10000));
    assert!(rendered.contains("eth0_rx.max 1250000000\n"));
    assert!(rendered.contains("Maximum speed is 10000 Mbps.\n"));
}

#[test]
fn garbled_speed_file_is_an_error() {
    assert_eq!(config_output("eth0", Some("fast\n")).unwrap_err(), MetadataError::BadSpeed);
    assert_eq!(config_output("eth0", Some("")).unwrap_err(), MetadataError::BadSpeed);
}

#[test]
fn absurd_speed_is_rejected_not_wrapped() {
    let r = config_output("eth0", Some("18446744073709551615"));
    assert_eq!(r.unwrap_err(), MetadataError::SpeedTooLarge);
}
