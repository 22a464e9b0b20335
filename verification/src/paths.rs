//! Deterministic derivation of every filesystem path the sampler and
//! the reader touch, from the interface name, the invocation name and
//! the state directory.

use crate::text::push_str_chars;
use vstd::prelude::*;

verus! {

/// Path of the receive-counter source file of an interface.
pub open spec fn rx_path_spec(iface: Seq<char>) -> Seq<char> {
    "/sys/class/net/"@ + iface + "/statistics/rx_bytes"@
}

/// Path of the transmit-counter source file of an interface.
pub open spec fn tx_path_spec(iface: Seq<char>) -> Seq<char> {
    "/sys/class/net/"@ + iface + "/statistics/tx_bytes"@
}

/// Path of the link-speed file of an interface.
pub open spec fn speed_path_spec(iface: Seq<char>) -> Seq<char> {
    "/sys/class/net/"@ + iface + "/speed"@
}

/// Path of the cache file of one plugin invocation name.
pub open spec fn cache_path_spec(statedir: Seq<char>, name: Seq<char>) -> Seq<char> {
    statedir + "/munin."@ + name + ".value"@
}

/// Path of the PID file of one plugin invocation name.
pub open spec fn pid_path_spec(statedir: Seq<char>, name: Seq<char>) -> Seq<char> {
    statedir + "/"@ + name + ".pid"@
}

/// Derive the receive-counter source path.
pub fn rx_path(iface: &str) -> (r: Vec<char>)
    ensures
        r@ == rx_path_spec(iface@),
{
    let mut out: Vec<char> = Vec::new();
    push_str_chars(&mut out, "/sys/class/net/");
    push_str_chars(&mut out, iface);
    push_str_chars(&mut out, "/statistics/rx_bytes");
    out
}

/// Derive the transmit-counter source path.
pub fn tx_path(iface: &str) -> (r: Vec<char>)
    ensures
        r@ == tx_path_spec(iface@),
{
    let mut out: Vec<char> = Vec::new();
    push_str_chars(&mut out, "/sys/class/net/");
    push_str_chars(&mut out, iface);
    push_str_chars(&mut out, "/statistics/tx_bytes");
    out
}

/// Derive the link-speed file path.
pub fn speed_path(iface: &str) -> (r: Vec<char>)
    ensures
        r@ == speed_path_spec(iface@),
{
    let mut out: Vec<char> = Vec::new();
    push_str_chars(&mut out, "/sys/class/net/");
    push_str_chars(&mut out, iface);
    push_str_chars(&mut out, "/speed");
    out
}

/// Derive the cache file path from the state directory and the
/// invocation name.
pub fn cache_path(statedir: &str, name: &str) -> (r: Vec<char>)
    ensures
        r@ == cache_path_spec(statedir@, name@),
{
    let mut out: Vec<char> = Vec::new();
    push_str_chars(&mut out, statedir);
    push_str_chars(&mut out, "/munin.");
    push_str_chars(&mut out, name);
    push_str_chars(&mut out, ".value");
    out
}

/// Derive the PID file path from the state directory and the
/// invocation name.
pub fn pid_path(statedir: &str, name: &str) -> (r: Vec<char>)
    ensures
        r@ == pid_path_spec(statedir@, name@),
{
    let mut out: Vec<char> = Vec::new();
    push_str_chars(&mut out, statedir);
    push_str_chars(&mut out, "/");
    push_str_chars(&mut out, name);
    push_str_chars(&mut out, ".pid");
    out
}

} // verus!
