//! Sample records: the two text lines one tick appends to the cache file.

use crate::counter::Counter;
use crate::digits::{dec_digits, lemma_canonical_roundtrip, u64_to_digits};
use crate::text::{push_chars, push_str_chars};
use vstd::prelude::*;

verus! {

/// One `<interface><label><epoch>:<value>` line, newline terminated.
pub open spec fn value_line(iface: Seq<char>, label: Seq<char>, epoch: nat, v: nat) -> Seq<char> {
    iface + label + dec_digits(epoch) + ":"@ + dec_digits(v) + "\n"@
}

/// The sample record of one tick: the transmit line first, then the
/// receive line, both carrying the same whole-second timestamp.
pub open spec fn tick_lines(iface: Seq<char>, epoch: nat, tx: nat, rx: nat) -> Seq<char> {
    value_line(iface, "_tx.value "@, epoch, tx) + value_line(iface, "_rx.value "@, epoch, rx)
}

/// Render the sample record of one tick.
pub fn render_tick(iface: &str, epoch: u64, tx: &Counter, rx: &Counter) -> (r: Vec<char>)
    requires
        tx.wf(),
        rx.wf(),
    ensures
        r@ == tick_lines(iface@, epoch as nat, tx.value(), rx.value()),
{
    let mut out: Vec<char> = Vec::new();
    let epoch_digits = u64_to_digits(epoch);
    push_str_chars(&mut out, iface);
    push_str_chars(&mut out, "_tx.value ");
    push_chars(&mut out, epoch_digits.as_slice());
    push_str_chars(&mut out, ":");
    push_chars(&mut out, tx.digits().as_slice());
    push_str_chars(&mut out, "\n");
    push_str_chars(&mut out, iface);
    push_str_chars(&mut out, "_rx.value ");
    push_chars(&mut out, epoch_digits.as_slice());
    push_str_chars(&mut out, ":");
    push_chars(&mut out, rx.digits().as_slice());
    push_str_chars(&mut out, "\n");
    proof {
        lemma_canonical_roundtrip(tx@);
        lemma_canonical_roundtrip(rx@);
        assert(out@ =~= tick_lines(iface@, epoch as nat, tx.value(), rx.value()));
    }
    out
}

} // verus!
