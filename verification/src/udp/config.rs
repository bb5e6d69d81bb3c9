//! Settings of the UDP tracker.

use vstd::prelude::*;

verus! {

/// Settings that the shared logic of the workers reads.
#[derive(Clone, Debug)]
pub struct Config {
    /// Number of workers that handle requests.
    pub request_workers: usize,
    pub cleaning: CleaningConfig,
}

/// Settings on how long things are kept.
#[derive(Clone, Debug)]
pub struct CleaningConfig {
    /// Seconds for which a connection id is accepted after it was made.
    pub max_connection_age: u64,
}

} // verus!
