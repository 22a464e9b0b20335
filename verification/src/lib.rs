//! Core logic of a per-interface network-traffic sampler exposed as a
//! pull-based plugin: interface-identity resolution, counter parsing,
//! sample-record rendering, the 1 Hz drift-correcting cadence, the
//! single-flight guard over a PID-file lock, the sampler state machine,
//! and the atomic cache-file handoff protocol.
//!
//! Every decision the two cooperating processes make is a verified
//! function here; the thin process shell around it (argument handling,
//! file reads and writes, locking, sleeping) performs the actions these
//! functions prescribe.

pub mod cadence;
pub mod counter;
pub mod digits;
pub mod dispatch;
pub mod handoff;
pub mod ident;
pub mod metadata;
pub mod paths;
pub mod record;
pub mod sampler;
pub mod singleton;
pub mod text;
