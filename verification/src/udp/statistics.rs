//! Counters, and the rest of what all workers share.

use crate::access_list::{initial_list, AccessListArcSwap};
use crate::protocol::InfoHash;
use std::sync::atomic::AtomicUsize;
use std::sync::Arc;
use vstd::prelude::*;

verus! {

/// The count that `counter` was made with.
pub uninterp spec fn initial_count(counter: AtomicUsize) -> usize;

/// `AtomicUsize::default`: a counter that starts at zero.
#[verifier::external_body]
fn new_counter() -> (counter: AtomicUsize)
    ensures
        initial_count(counter) == 0,
{
    AtomicUsize::default()
}

/// What the tracker has done so far, counted by the workers as they go.
pub struct Statistics {
    pub requests_received: AtomicUsize,
    pub responses_sent_connect: AtomicUsize,
    pub responses_sent_announce: AtomicUsize,
    pub responses_sent_scrape: AtomicUsize,
    pub responses_sent_error: AtomicUsize,
    pub bytes_received: AtomicUsize,
    pub bytes_sent: AtomicUsize,
    /// Number of torrents of each request worker.
    pub torrents: Vec<AtomicUsize>,
    /// Number of peers of each request worker.
    pub peers: Vec<AtomicUsize>,
}

/// `len` counters, each started at zero.
pub open spec fn started_at_zero(counters: Seq<AtomicUsize>, len: nat) -> bool {
    &&& counters.len() == len
    &&& forall|i: int| 0 <= i < len ==> initial_count(#[trigger] counters[i]) == 0
}

impl Statistics {
    /// All counters, for that many request workers, were started at zero.
    pub open spec fn is_new(self, num_request_workers: nat) -> bool {
        &&& initial_count(self.requests_received) == 0
        &&& initial_count(self.responses_sent_connect) == 0
        &&& initial_count(self.responses_sent_announce) == 0
        &&& initial_count(self.responses_sent_scrape) == 0
        &&& initial_count(self.responses_sent_error) == 0
        &&& initial_count(self.bytes_received) == 0
        &&& initial_count(self.bytes_sent) == 0
        &&& started_at_zero(self.torrents@, num_request_workers)
        &&& started_at_zero(self.peers@, num_request_workers)
    }

    /// Counters at zero, with one of torrents and one of peers for each request worker.
    pub fn new(num_request_workers: usize) -> (statistics: Self)
        ensures
            statistics.is_new(num_request_workers as nat),
            statistics.torrents@.len() == num_request_workers,
            statistics.peers@.len() == num_request_workers,
    {
        Statistics {
            requests_received: new_counter(),
            responses_sent_connect: new_counter(),
            responses_sent_announce: new_counter(),
            responses_sent_scrape: new_counter(),
            responses_sent_error: new_counter(),
            bytes_received: new_counter(),
            bytes_sent: new_counter(),
            torrents: Self::create_atomic_usize_vec(num_request_workers),
            peers: Self::create_atomic_usize_vec(num_request_workers),
        }
    }

    /// `len` counters at zero.
    fn create_atomic_usize_vec(len: usize) -> (counters: Vec<AtomicUsize>)
        ensures
            started_at_zero(counters@, len as nat),
    {
        let mut counters: Vec<AtomicUsize> = Vec::new();
        while counters.len() < len
            invariant
                counters.len() <= len,
                started_at_zero(counters@, counters.len() as nat),
            decreases len - counters.len(),
        {
            counters.push(new_counter());
        }
        counters
    }
}

/// Each request worker has a counter of torrents and one of peers, there are no others, and all
/// counters start at zero.
pub proof fn each_request_worker_has_counters(statistics: Statistics, num_request_workers: nat)
    requires
        statistics.is_new(num_request_workers),
    ensures
        statistics.torrents@.len() == num_request_workers,
        statistics.peers@.len() == num_request_workers,
        forall|worker: int|
            0 <= worker < num_request_workers ==> initial_count(
                #[trigger] statistics.torrents@[worker],
            ) == 0,
        forall|worker: int|
            0 <= worker < num_request_workers ==> initial_count(
                #[trigger] statistics.peers@[worker],
            ) == 0,
        initial_count(statistics.requests_received) == 0,
        initial_count(statistics.responses_sent_connect) == 0,
        initial_count(statistics.responses_sent_announce) == 0,
        initial_count(statistics.responses_sent_scrape) == 0,
        initial_count(statistics.responses_sent_error) == 0,
        initial_count(statistics.bytes_received) == 0,
        initial_count(statistics.bytes_sent) == 0,
{
}

/// State shared by all workers.
#[derive(Clone)]
pub struct State {
    pub access_list: Arc<AccessListArcSwap>,
    pub statistics_ipv4: Arc<Statistics>,
    pub statistics_ipv6: Arc<Statistics>,
}

impl State {
    /// State with an empty access list and new counters for that many request workers.
    pub fn new(num_request_workers: usize) -> (state: Self)
        ensures
            initial_list(*state.access_list) == Seq::<InfoHash>::empty(),
            state.statistics_ipv4.is_new(num_request_workers as nat),
            state.statistics_ipv6.is_new(num_request_workers as nat),
            state.statistics_ipv4.torrents@.len() == num_request_workers,
            state.statistics_ipv4.peers@.len() == num_request_workers,
            state.statistics_ipv6.torrents@.len() == num_request_workers,
            state.statistics_ipv6.peers@.len() == num_request_workers,
    {
        State {
            access_list: Arc::new(AccessListArcSwap::default()),
            statistics_ipv4: Arc::new(Statistics::new(num_request_workers)),
            statistics_ipv6: Arc::new(Statistics::new(num_request_workers)),
        }
    }
}

} // verus!
