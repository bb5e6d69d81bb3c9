//! What the workers of the UDP tracker send each other.

use crate::net::{Ipv4Addr, Ipv6Addr};
use crate::protocol::{AnnounceRequest, AnnounceResponse, InfoHash, TorrentScrapeStatistics};
use std::collections::BTreeMap;
use vstd::prelude::*;

verus! {

/// The part of a scrape that falls to one request worker. Each torrent comes with its place
/// in the scrape.
#[derive(Debug)]
pub struct PendingScrapeRequest {
    pub slab_key: usize,
    pub info_hashes: BTreeMap<usize, InfoHash>,
}

/// The answer of one request worker to its part of a scrape.
#[derive(Debug)]
pub struct PendingScrapeResponse {
    pub slab_key: usize,
    pub torrent_stats: BTreeMap<usize, TorrentScrapeStatistics>,
}

/// A request from a client that has shown a valid connection id.
#[derive(Debug)]
pub enum ConnectedRequest {
    Announce(AnnounceRequest),
    Scrape(PendingScrapeRequest),
}

/// The answer to such a request.
#[derive(Debug)]
pub enum ConnectedResponse {
    AnnounceIpv4(AnnounceResponse<Ipv4Addr>),
    AnnounceIpv6(AnnounceResponse<Ipv6Addr>),
    Scrape(PendingScrapeResponse),
}

} // verus!
