//! Accurate distributed timestamps.
//!
//! A client process locks the phase and frequency of a local virtual clock
//! to a reference clock served by a remote process, continuously correcting
//! for drift and network latency, and exposes a synchronized timestamp along
//! with a liveness signal.

use vstd::prelude::*;

pub mod client;
pub mod config;
pub mod packet;
pub mod plc;
pub mod server;
pub mod timestamp;
pub mod vclock;

verus! {

/// Things that can go wrong.
#[derive(Debug, PartialEq, Eq)]
pub enum Error {
    /// The clock became out of sync.
    OutOfSync,
    /// The request with the server timed out.
    Timeout,
    /// The internal representation overflowed.
    Overflow,
    /// Could not read config file.
    ConfigRead,
    /// Invalid configuration value.
    ConfigValue,
    /// Invalid configuration key.
    ConfigKey(String),
}

} // verus!
