//! Which workers the tracker runs.

use crate::access_list::AccessListMode;
use vstd::prelude::*;

verus! {

/// Number of messages that fit in a channel between two workers.
pub const SHARED_CHANNEL_SIZE: usize = 1024;

/// Settings that decide which workers are run.
#[derive(Clone, Copy, Debug)]
pub struct Config {
    /// Number of workers that talk to clients.
    pub socket_workers: usize,
    /// Number of workers that handle requests.
    pub request_workers: usize,
}

/// Where the access list comes from.
#[derive(Clone, Copy, PartialEq, Eq, Structural, Debug)]
pub enum AccessListSource {
    /// From the file that the settings name.
    File,
    /// From nowhere: it is empty.
    Empty,
}

impl AccessListSource {
    /// The list is read from its file where it is used, and only there.
    pub fn from_mode(mode: AccessListMode) -> (source: Self)
        ensures
            source == AccessListSource::File <==> mode != AccessListMode::Off,
    {
        if mode.is_on() {
            AccessListSource::File
        } else {
            AccessListSource::Empty
        }
    }
}

/// A worker, with its number among those of its kind.
#[derive(Clone, Copy, PartialEq, Eq, Structural, Debug)]
pub enum Worker {
    Socket(usize),
    Request(usize),
}

/// What the tracker runs.
#[derive(Clone, Debug)]
pub struct RunPlan {
    /// Number of workers that take part in each of the two channel meshes, one for requests
    /// and one for responses.
    pub num_peers: usize,
    /// Number of messages that fit in each channel of a mesh.
    pub channel_size: usize,
    /// The workers, in the order in which they are started and waited for.
    pub workers: Vec<Worker>,
}

/// All socket workers by number, then all request workers by number.
pub open spec fn all_workers(socket_workers: nat, request_workers: nat) -> Seq<Worker> {
    Seq::new(socket_workers, |i: int| Worker::Socket(i as usize)) + Seq::new(
        request_workers,
        |i: int| Worker::Request(i as usize),
    )
}

impl RunPlan {
    /// The plan for the settings given.
    pub fn new(config: &Config) -> (plan: Self)
        requires
            config.socket_workers + config.request_workers <= usize::MAX,
        ensures
            plan.num_peers == config.socket_workers + config.request_workers,
            plan.channel_size == SHARED_CHANNEL_SIZE,
            plan.workers@ == all_workers(
                config.socket_workers as nat,
                config.request_workers as nat,
            ),
            plan.workers@.len() == plan.num_peers,
            forall|i: int|
                0 <= i < config.socket_workers ==> #[trigger] plan.workers@[i] == Worker::Socket(
                    i as usize,
                ),
            forall|i: int|
                config.socket_workers <= i < plan.num_peers ==> #[trigger] plan.workers@[i]
                    == Worker::Request((i - config.socket_workers) as usize),
            plan.channel_size == 1024,
    {
        let num_peers: usize = config.socket_workers + config.request_workers;
        let mut workers: Vec<Worker> = Vec::new();
        for i in 0..config.socket_workers
            invariant
                workers@ == all_workers(i as nat, 0),
        {
            workers.push(Worker::Socket(i));
            assert(workers@ =~= all_workers((i + 1) as nat, 0));
        }
        for i in 0..config.request_workers
            invariant
                workers@ == all_workers(config.socket_workers as nat, i as nat),
        {
            workers.push(Worker::Request(i));
            assert(workers@ =~= all_workers(config.socket_workers as nat, (i + 1) as nat));
        }
        RunPlan { num_peers, channel_size: SHARED_CHANNEL_SIZE, workers }
    }
}

/// The meshes have a place for each worker, and no worker is run twice.
pub proof fn each_worker_is_run_once(socket_workers: usize, request_workers: usize)
    ensures
        all_workers(socket_workers as nat, request_workers as nat).len() == socket_workers
            + request_workers,
        all_workers(socket_workers as nat, request_workers as nat).no_duplicates(),
        forall|i: usize| #[trigger]
            all_workers(socket_workers as nat, request_workers as nat).contains(Worker::Socket(i))
                <==> i < socket_workers,
        forall|i: usize| #[trigger]
            all_workers(socket_workers as nat, request_workers as nat).contains(Worker::Request(i))
                <==> i < request_workers,
{
    let workers = all_workers(socket_workers as nat, request_workers as nat);
    assert forall|i: usize| i < socket_workers implies #[trigger] workers.contains(
        Worker::Socket(i),
    ) by {
        assert(workers[i as int] == Worker::Socket(i));
    }
    assert forall|i: usize| i < request_workers implies #[trigger] workers.contains(
        Worker::Request(i),
    ) by {
        assert(workers[socket_workers + i] == Worker::Request(i));
    }
}

/// Workers are started in order: all socket workers before any request worker, and those of a
/// kind by number, which grows by one from each to the next and begins at zero.
pub proof fn workers_are_started_in_order(socket_workers: usize, request_workers: usize, i: int)
    requires
        0 <= i < socket_workers + request_workers,
    ensures
        ({
            let workers = all_workers(socket_workers as nat, request_workers as nat);
            match workers[i] {
                Worker::Socket(number) => i == number && i < socket_workers,
                Worker::Request(number) => i == socket_workers + number,
            }
        }),
{
}

} // verus!
