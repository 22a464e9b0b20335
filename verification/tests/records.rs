//! Counter parsing and sample-record rendering.

use if1sec::counter::{parse_counter, Counter, CounterError};
use if1sec::record::render_tick;

fn text(v: Vec<char>) -> String {
    v.into_iter().collect()
}

fn digits(c: &Counter) -> String {
    c.digits().iter().collect()
}

#[test]
fn parses_plain_number() {
    let c = parse_counter("1000").unwrap();
    assert_eq!(digits(&c), "1000");
}

#[test]
fn parses_number_with_surrounding_whitespace() {
    let c = parse_counter(" \t42\n").unwrap();
    assert_eq!(digits(&c), "42");
}

#[test]
fn parse_strips_leading_zeros() {
    let c = parse_counter("00123").unwrap();
    assert_eq!(digits(&c), "123");
}

#[test]
fn parse_keeps_single_zero() {
    let c = parse_counter("0000\n").unwrap();
    assert_eq!(digits(&c), "0");
}

#[test]
fn parse_rejects_empty_text() {
    assert_eq!(parse_counter("").unwrap_err(), CounterError::Empty);
    assert_eq!(parse_counter(" \n\t").unwrap_err(), CounterError::Empty);
}

#[test]
fn parse_rejects_non_digits() {
    assert_eq!(parse_counter("12a3").unwrap_err(), CounterError::InvalidDigit);
    assert_eq!(parse_counter("-5").unwrap_err(), CounterError::InvalidDigit);
    assert_eq!(parse_counter("1 2").unwrap_err(), CounterError::InvalidDigit);
}

#[test]
fn parse_keeps_counters_beyond_64_bits() {
    let c = parse_counter("123456789012345678901234567890\n").unwrap();
    assert_eq!(digits(&c), "123456789012345678901234567890");
    assert_eq!(c.to_u64(), None);
}

#[test]
fn to_u64_roundtrips_at_the_limit() {
    let c = parse_counter("18446744073709551615").unwrap();
    assert_eq!(c.to_u64(), Some(u64::MAX));
    let over = parse_counter("18446744073709551616").unwrap();
    assert_eq!(over.to_u64(), None);
}

#[test]
fn from_u64_builds_canonical_digits() {
    assert_eq!(digits(&Counter::from_u64(0)), "0");
    assert_eq!(digits(&Counter::from_u64(907)), "907");
    assert_eq!(Counter::from_u64(907).to_u64(), Some(907));
}

#[test]
fn one_tick_appends_tx_then_rx_lines() {
    let rx = parse_counter("1000").unwrap();
    let tx = parse_counter("500").unwrap();
    let lines = render_tick("eth0", 1_700_000_000, &tx, &rx);
    assert_eq!(text(lines), "eth0_tx.value 1700000000:500\neth0_rx.value 1700000000:1000\n");
}

#[test]
fn tick_lines_carry_huge_counters_untruncated() {
    let rx = parse_counter("36893488147419103232").unwrap();
    let tx = parse_counter("0").unwrap();
    let lines = render_tick("wan", 1, &tx, &rx);
    assert_eq!(text(lines), "wan_tx.value 1:0\nwan_rx.value 1:36893488147419103232\n");
}
