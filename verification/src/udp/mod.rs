//! Shared by the workers of the UDP tracker.

pub mod channel;
pub mod clock;
pub mod config;
pub mod keyed_hash;
pub mod message;
pub mod peer;
pub mod random;
pub mod statistics;
pub mod stopwatch;
pub mod validator;

use vstd::prelude::*;

verus! {

/// Room for a packet, in bytes.
pub const MAX_PACKET_SIZE: usize = 8192;

} // verus!
