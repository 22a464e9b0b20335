//! The sampler daemon's lifecycle as a state machine.
//!
//! The daemon starts, attempts the one exclusive lock on its PID file,
//! detaches on success, and then loops: each tick reads the two
//! counter sources, appends one sample record to the cache file, and
//! sleeps the remainder of the second.  Losing the lock race, or any
//! failure to read or parse a counter, is fatal: the process stops
//! rather than risk a duplicate writer or a silently skewed series.
//!
//! The process shell performs the lock attempt, the reads, the append
//! and the sleep; the transitions and the record contents are decided
//! and proved here.

use crate::counter::{parse_counter, trimmed};
use crate::digits::{all_digits, digits_value};
use crate::record::{render_tick, tick_lines};
use vstd::prelude::*;

verus! {

/// The phases of a sampler daemon's life.
#[derive(Clone, Copy, Debug, PartialEq, Eq, Structural)]
pub enum Phase {
    /// Started, lock not yet attempted.
    Starting,
    /// Holds the PID file lock and has left its parent's session.
    Detached,
    /// In the acquisition loop, appending one record per tick.
    Sampling,
    /// Lost the lock race or hit a tick failure; the process exits.
    Fatal,
}

/// The events a sampler reacts to.
#[derive(Clone, Copy, Debug, PartialEq, Eq, Structural)]
pub enum SamplerEvent {
    /// The exclusive PID file lock was acquired.
    LockOk,
    /// The exclusive PID file lock was already held elsewhere.
    LockDenied,
    /// The daemon's PID was recorded in the locked file.
    PidWritten,
    /// A tick read and parsed both counters.
    TickOk,
    /// A tick failed to read or parse a counter.
    TickFail,
}

/// The phase transition relation of the sampler's lifecycle: any
/// out-of-protocol event is fatal, and `Fatal` is absorbing.
pub open spec fn phase_after(p: Phase, e: SamplerEvent) -> Phase {
    match (p, e) {
        (Phase::Starting, SamplerEvent::LockOk) => Phase::Detached,
        (Phase::Starting, SamplerEvent::LockDenied) => Phase::Fatal,
        (Phase::Detached, SamplerEvent::PidWritten) => Phase::Sampling,
        (Phase::Sampling, SamplerEvent::TickOk) => Phase::Sampling,
        (Phase::Sampling, SamplerEvent::TickFail) => Phase::Fatal,
        _ => Phase::Fatal,
    }
}

/// Phase after a sequence of events, oldest first.
pub open spec fn phase_after_all(p: Phase, es: Seq<SamplerEvent>) -> Phase
    decreases es.len(),
{
    if es.len() == 0 {
        p
    } else {
        phase_after_all(phase_after(p, es[0]), es.skip(1))
    }
}

/// Whether a step appends a record to the cache file: only a clean
/// tick in the sampling phase does.
pub open spec fn emits(p: Phase, e: SamplerEvent) -> bool {
    p == Phase::Sampling && e == SamplerEvent::TickOk
}

proof fn lemma_fatal_stays(es: Seq<SamplerEvent>)
    ensures
        phase_after_all(Phase::Fatal, es) == Phase::Fatal,
    decreases es.len(),
{
    if es.len() > 0 {
        lemma_fatal_stays(es.skip(1));
    }
}

/// Singleton corollary: a sampler whose lock attempt was denied never
/// appends anything to the cache file, whatever happens afterwards.
pub proof fn lemma_loser_never_emits(es: Seq<SamplerEvent>, i: int)
    requires
        es.len() > 0,
        es[0] == SamplerEvent::LockDenied,
        0 <= i < es.len(),
    ensures
        !emits(phase_after_all(Phase::Starting, es.take(i)), es[i]),
{
    if i == 0 {
        assert(es.take(0) =~= Seq::<SamplerEvent>::empty());
    } else {
        let pre = es.take(i);
        assert(pre[0] == SamplerEvent::LockDenied);
        assert(phase_after(Phase::Starting, pre[0]) == Phase::Fatal);
        lemma_fatal_stays(pre.skip(1));
        assert(phase_after_all(Phase::Starting, pre) == Phase::Fatal);
    }
}

/// Why a tick was fatal, in the order the tick proceeds: receive side
/// first, read before parse.
#[derive(Clone, Copy, Debug, PartialEq, Eq, Structural)]
pub enum TickError {
    /// The receive-counter file could not be read.
    RxRead,
    /// The receive-counter text is not a decimal number.
    RxParse,
    /// The transmit-counter file could not be read.
    TxRead,
    /// The transmit-counter text is not a decimal number.
    TxParse,
}

/// A counter source text that parses: one decimal number around
/// optional whitespace.
pub open spec fn counter_text_ok(t: Seq<char>) -> bool {
    trimmed(t).len() > 0 && all_digits(trimmed(t))
}

/// One sampler daemon for one interface.
pub struct Sampler {
    iface: String,
    phase: Phase,
}

impl Sampler {
    /// The phase the daemon is in.
    pub closed spec fn phase(&self) -> Phase {
        self.phase
    }

    /// The interface this daemon samples.
    pub closed spec fn interface(&self) -> Seq<char> {
        self.iface@
    }

    /// The phase the daemon is in, for the process shell to act on.
    pub fn current_phase(&self) -> (p: Phase)
        ensures
            p == self.phase(),
    {
        self.phase
    }

    /// A fresh sampler for a resolved interface, lock not yet attempted.
    pub fn new(iface: &str) -> (s: Sampler)
        ensures
            s.phase() == Phase::Starting,
            s.interface() == iface@,
    {
        Sampler { iface: iface.to_owned(), phase: Phase::Starting }
    }

    /// React to the one non-blocking exclusive lock attempt on the PID
    /// file.  Winning detaches the daemon; losing is fatal — the race
    /// loser must abort rather than run unlocked, and is never retried.
    pub fn on_lock_attempt(&mut self, acquired: bool)
        requires
            old(self).phase() == Phase::Starting,
        ensures
            final(self).interface() == old(self).interface(),
            final(self).phase() == phase_after(
                Phase::Starting,
                if acquired {
                    SamplerEvent::LockOk
                } else {
                    SamplerEvent::LockDenied
                },
            ),
    {
        self.phase = if acquired {
            Phase::Detached
        } else {
            Phase::Fatal
        };
    }

    /// The detached daemon has recorded its PID in the locked file;
    /// the acquisition loop begins.
    pub fn on_pid_written(&mut self)
        requires
            old(self).phase() == Phase::Detached,
        ensures
            final(self).interface() == old(self).interface(),
            final(self).phase() == phase_after(Phase::Detached, SamplerEvent::PidWritten),
    {
        self.phase = Phase::Sampling;
    }

    /// One tick of the acquisition loop.
    ///
    /// `rx_text` and `tx_text` are the counter source contents, `None`
    /// where the read itself failed; `epoch` is the current time in
    /// whole seconds.  On success the record to append is returned and
    /// sampling goes on; any failure is fatal, receive side checked
    /// first, reads before parses.
    pub fn on_tick(&mut self, epoch: u64, rx_text: Option<&str>, tx_text: Option<&str>) -> (r:
        Result<Vec<char>, TickError>)
        requires
            old(self).phase() == Phase::Sampling,
        ensures
            final(self).interface() == old(self).interface(),
            match r {
                Ok(lines) => {
                    &&& rx_text is Some && counter_text_ok(rx_text->0@)
                    &&& tx_text is Some && counter_text_ok(tx_text->0@)
                    &&& lines@ == tick_lines(
                        old(self).interface(),
                        epoch as nat,
                        digits_value(trimmed(tx_text->0@)),
                        digits_value(trimmed(rx_text->0@)),
                    )
                    &&& final(self).phase() == phase_after(Phase::Sampling, SamplerEvent::TickOk)
                },
                Err(e) => {
                    &&& final(self).phase() == phase_after(Phase::Sampling, SamplerEvent::TickFail)
                    &&& match e {
                        TickError::RxRead => rx_text is None,
                        TickError::RxParse => rx_text is Some && !counter_text_ok(rx_text->0@),
                        TickError::TxRead => rx_text is Some && counter_text_ok(rx_text->0@)
                            && tx_text is None,
                        TickError::TxParse => rx_text is Some && counter_text_ok(rx_text->0@)
                            && tx_text is Some && !counter_text_ok(tx_text->0@),
                    }
                },
            },
    {
        let rx = match rx_text {
            None => {
                self.phase = Phase::Fatal;
                return Err(TickError::RxRead);
            },
            Some(t) => match parse_counter(t) {
                Ok(c) => c,
                Err(_) => {
                    self.phase = Phase::Fatal;
                    return Err(TickError::RxParse);
                },
            },
        };
        let tx = match tx_text {
            None => {
                self.phase = Phase::Fatal;
                return Err(TickError::TxRead);
            },
            Some(t) => match parse_counter(t) {
                Ok(c) => c,
                Err(_) => {
                    self.phase = Phase::Fatal;
                    return Err(TickError::TxParse);
                },
            },
        };
        let lines = render_tick(self.iface.as_str(), epoch, &tx, &rx);
        Ok(lines)
    }
}

} // verus!
