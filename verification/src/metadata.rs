//! The graph-metadata text emitted for the `config` verb.
//!
//! A pure templating function over the interface name and one integer
//! link speed (in Mbit/s), read from the interface's speed file.  A
//! missing or unreadable speed, or a reported speed of zero, falls back
//! to 1000 Mbit/s; the per-second byte limit advertised to the grapher
//! is an eighth of the speed in millions of bytes.

use crate::counter::{parse_counter, trimmed};
use crate::digits::{dec_digits, digits_value, u64_to_digits};
use crate::sampler::counter_text_ok;
use crate::text::{push_chars, push_str_chars};
use vstd::prelude::*;

verus! {

/// Bytes per second a link of `speed` Mbit/s can carry.
pub open spec fn byte_limit(speed: nat) -> nat {
    speed / 8 * 1000000
}

/// The advertised byte limit must fit the machine integer it is
/// rendered from.
pub open spec fn speed_fits(speed: nat) -> bool {
    byte_limit(speed) <= u64::MAX
}

/// A speed file text that can be used: one decimal number that fits a
/// machine integer.
pub open spec fn speed_text_ok(t: Seq<char>) -> bool {
    counter_text_ok(t) && digits_value(trimmed(t)) <= u64::MAX
}

/// The speed actually used: a reported zero falls back to 1000 Mbit/s.
pub open spec fn effective_speed(t: Seq<char>) -> nat {
    if digits_value(trimmed(t)) == 0 {
        1000
    } else {
        digits_value(trimmed(t))
    }
}

/// Graph identity and scale directives.
pub open spec fn cfg_head(iface: Seq<char>) -> Seq<char> {
    "graph_title Interface 1sec stats for "@ + iface + "\n"@
        + "graph_category network\ngraph_args --base 1000\n"@
        + "graph_data_size custom 1d, 1s for 1d, 5s for 2d, 10s for 7d, 1m for 1t, 5m for 1y\n"@
        + "graph_vlabel bits in (-) / out (+)\n"@
        + "graph_info This graph shows the traffic of the "@ + iface
        + " network interface. Please note that the traffic is shown in bits per second, not bytes.\n"@
        + "update_rate 1\n"@
}

/// Receive-field directives.
pub open spec fn cfg_rx(iface: Seq<char>) -> Seq<char> {
    iface + "_rx.label "@ + iface + " bits\n"@ + iface + "_rx.cdef "@ + iface + "_rx,8,*\n"@
        + iface + "_rx.type DERIVE\n"@ + iface + "_rx.min 0\n"@ + iface + "_rx.graph no\n"@
}

/// Transmit-field directives.
pub open spec fn cfg_tx(iface: Seq<char>) -> Seq<char> {
    iface + "_tx.label bps\n"@ + iface + "_tx.cdef "@ + iface + "_tx,8,*\n"@ + iface
        + "_tx.type DERIVE\n"@ + iface + "_tx.min 0\n"@ + iface + "_tx.negative "@ + iface
        + "_rx\n"@
}

/// Field limits and descriptions, carrying the speed and byte limit.
pub open spec fn cfg_limits(iface: Seq<char>, speed: nat) -> Seq<char> {
    iface + "_rx.max "@ + dec_digits(byte_limit(speed)) + "\n"@ + iface + "_tx.max "@
        + dec_digits(byte_limit(speed)) + "\n"@ + iface + "_rx.info Received traffic on the "@
        + iface + " interface. Maximum speed is "@ + dec_digits(speed) + " Mbps.\n"@ + iface
        + "_tx.info Transmitted traffic on the "@ + iface + " interface. Maximum speed "@
        + dec_digits(speed) + " Mbps.\n"@
}

/// The whole metadata text for one interface and link speed.
pub open spec fn config_lines_spec(iface: Seq<char>, speed: nat) -> Seq<char> {
    cfg_head(iface) + cfg_rx(iface) + cfg_tx(iface) + cfg_limits(iface, speed)
}

/// Why the metadata could not be produced.
#[derive(Clone, Copy, Debug, PartialEq, Eq, Structural)]
pub enum MetadataError {
    /// The speed file's text is not a decimal number that fits a
    /// machine integer.
    BadSpeed,
    /// The reported speed is so large that its byte limit cannot be
    /// rendered.
    SpeedTooLarge,
}

/// Render the metadata for a known link speed.
#[verifier::spinoff_prover]
#[verifier::rlimit(100)]
pub fn config_lines(iface: &str, speed: u64) -> (r: Vec<char>)
    requires
        speed_fits(speed as nat),
    ensures
        r@ == config_lines_spec(iface@, speed as nat),
{
    let max: u64 = speed / 8 * 1000000;
    let speed_digits = u64_to_digits(speed);
    let max_digits = u64_to_digits(max);
    let mut out: Vec<char> = Vec::new();

    push_str_chars(&mut out, "graph_title Interface 1sec stats for ");
    push_str_chars(&mut out, iface);
    push_str_chars(&mut out, "\n");
    push_str_chars(&mut out, "graph_category network\ngraph_args --base 1000\n");
    push_str_chars(
        &mut out,
        "graph_data_size custom 1d, 1s for 1d, 5s for 2d, 10s for 7d, 1m for 1t, 5m for 1y\n",
    );
    push_str_chars(&mut out, "graph_vlabel bits in (-) / out (+)\n");
    push_str_chars(&mut out, "graph_info This graph shows the traffic of the ");
    push_str_chars(&mut out, iface);
    push_str_chars(
        &mut out,
        " network interface. Please note that the traffic is shown in bits per second, not bytes.\n",
    );
    push_str_chars(&mut out, "update_rate 1\n");
    proof {
        assert(out@ =~= cfg_head(iface@));
    }
    let ghost head = out@;

    push_str_chars(&mut out, iface);
    push_str_chars(&mut out, "_rx.label ");
    push_str_chars(&mut out, iface);
    push_str_chars(&mut out, " bits\n");
    push_str_chars(&mut out, iface);
    push_str_chars(&mut out, "_rx.cdef ");
    push_str_chars(&mut out, iface);
    push_str_chars(&mut out, "_rx,8,*\n");
    push_str_chars(&mut out, iface);
    push_str_chars(&mut out, "_rx.type DERIVE\n");
    push_str_chars(&mut out, iface);
    push_str_chars(&mut out, "_rx.min 0\n");
    push_str_chars(&mut out, iface);
    push_str_chars(&mut out, "_rx.graph no\n");
    proof {
        assert(out@ =~= head + cfg_rx(iface@));
    }
    let ghost head_rx = out@;

    push_str_chars(&mut out, iface);
    push_str_chars(&mut out, "_tx.label bps\n");
    push_str_chars(&mut out, iface);
    push_str_chars(&mut out, "_tx.cdef ");
    push_str_chars(&mut out, iface);
    push_str_chars(&mut out, "_tx,8,*\n");
    push_str_chars(&mut out, iface);
    push_str_chars(&mut out, "_tx.type DERIVE\n");
    push_str_chars(&mut out, iface);
    push_str_chars(&mut out, "_tx.min 0\n");
    push_str_chars(&mut out, iface);
    push_str_chars(&mut out, "_tx.negative ");
    push_str_chars(&mut out, iface);
    push_str_chars(&mut out, "_rx\n");
    proof {
        assert(out@ =~= head_rx + cfg_tx(iface@));
    }
    let ghost head_tx = out@;

    push_str_chars(&mut out, iface);
    push_str_chars(&mut out, "_rx.max ");
    push_chars(&mut out, max_digits.as_slice());
    push_str_chars(&mut out, "\n");
    push_str_chars(&mut out, iface);
    push_str_chars(&mut out, "_tx.max ");
    push_chars(&mut out, max_digits.as_slice());
    push_str_chars(&mut out, "\n");
    push_str_chars(&mut out, iface);
    push_str_chars(&mut out, "_rx.info Received traffic on the ");
    push_str_chars(&mut out, iface);
    push_str_chars(&mut out, " interface. Maximum speed is ");
    push_chars(&mut out, speed_digits.as_slice());
    push_str_chars(&mut out, " Mbps.\n");
    push_str_chars(&mut out, iface);
    push_str_chars(&mut out, "_tx.info Transmitted traffic on the ");
    push_str_chars(&mut out, iface);
    push_str_chars(&mut out, " interface. Maximum speed ");
    push_chars(&mut out, speed_digits.as_slice());
    push_str_chars(&mut out, " Mbps.\n");
    proof {
        assert(out@ =~= head_tx + cfg_limits(iface@, speed as nat));
        assert(out@ =~= config_lines_spec(iface@, speed as nat));
    }
    out
}

/// Produce the metadata from the speed file's state: `None` where the
/// file does not exist (or could not be read), the raw text otherwise.
pub fn config_output(iface: &str, speed_text: Option<&str>) -> (r: Result<
    Vec<char>,
    MetadataError,
>)
    ensures
        match r {
            Ok(lines) => {
                &&& speed_text is None ==> lines@ == config_lines_spec(iface@, 1000)
                &&& speed_text is Some ==> speed_text_ok(speed_text->0@) && speed_fits(
                    effective_speed(speed_text->0@),
                ) && lines@ == config_lines_spec(iface@, effective_speed(speed_text->0@))
            },
            Err(MetadataError::BadSpeed) => speed_text is Some && !speed_text_ok(speed_text->0@),
            Err(MetadataError::SpeedTooLarge) => speed_text is Some && speed_text_ok(
                speed_text->0@,
            ) && !speed_fits(effective_speed(speed_text->0@)),
        },
{
    match speed_text {
        None => Ok(config_lines(iface, 1000)),
        Some(t) => {
            let parsed = match parse_counter(t) {
                Ok(c) => c,
                Err(_) => {
                    return Err(MetadataError::BadSpeed);
                },
            };
            let value = match parsed.to_u64() {
                Some(v) => v,
                None => {
                    return Err(MetadataError::BadSpeed);
                },
            };
            let speed: u64 = if value == 0 {
                1000
            } else {
                value
            };
            if speed / 8 > u64::MAX / 1000000 {
                proof {
                    assert(speed / 8 * 1000000 > u64::MAX) by (nonlinear_arith)
                        requires
                            speed / 8 > u64::MAX / 1000000,
                    ;
                }
                return Err(MetadataError::SpeedTooLarge);
            }
            proof {
                assert(speed / 8 * 1000000 <= u64::MAX) by (nonlinear_arith)
                    requires
                        speed / 8 <= u64::MAX / 1000000,
                ;
            }
            Ok(config_lines(iface, speed))
        },
    }
}

} // verus!
