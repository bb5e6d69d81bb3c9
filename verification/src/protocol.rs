//! Values that tracker messages are made of.

use crate::net::Ipv4Addr;
use vstd::prelude::*;

verus! {

/// Identifies a torrent.
#[derive(Clone, Copy, PartialEq, Eq, Hash, Debug)]
pub struct InfoHash(pub [u8; 20]);

/// Identifies a peer.
#[derive(Clone, Copy, PartialEq, Eq, Hash, Debug)]
pub struct PeerId(pub [u8; 20]);

/// Handed to a client by the UDP tracker when it connects, and shown by the client with
/// every later request.
#[derive(Clone, Copy, PartialEq, Eq, Structural, Hash, Debug)]
pub struct ConnectionId(pub i64);

/// Chosen by a client to match responses with requests.
#[derive(Clone, Copy, PartialEq, Eq, Structural, Hash, Debug)]
pub struct TransactionId(pub i32);

/// Seconds that a client is to wait between announces.
#[derive(Clone, Copy, PartialEq, Eq, Structural, Hash, Debug)]
pub struct AnnounceInterval(pub i32);

/// A count of bytes.
#[derive(Clone, Copy, PartialEq, Eq, Structural, Hash, Debug)]
pub struct NumberOfBytes(pub i64);

/// A count of peers.
#[derive(Clone, Copy, PartialEq, Eq, Structural, Hash, Debug)]
pub struct NumberOfPeers(pub i32);

/// A count of downloads.
#[derive(Clone, Copy, PartialEq, Eq, Structural, Hash, Debug)]
pub struct NumberOfDownloads(pub i32);

/// A port.
#[derive(Clone, Copy, PartialEq, Eq, Structural, Hash, Debug)]
pub struct Port(pub u16);

/// Chosen by a client to be known again under another address.
#[derive(Clone, Copy, PartialEq, Eq, Structural, Hash, Debug)]
pub struct PeerKey(pub u32);

/// What an announce is about.
#[derive(Clone, Copy, PartialEq, Eq, Structural, Hash, Debug)]
pub enum AnnounceEvent {
    Started,
    Stopped,
    Completed,
    /// A regular announce, about none of these.
    NoEvent,
}

/// A client announces itself for a torrent.
#[derive(Clone, Debug)]
pub struct AnnounceRequest {
    pub connection_id: ConnectionId,
    pub transaction_id: TransactionId,
    pub info_hash: InfoHash,
    pub peer_id: PeerId,
    pub bytes_downloaded: NumberOfBytes,
    pub bytes_uploaded: NumberOfBytes,
    pub bytes_left: NumberOfBytes,
    pub event: AnnounceEvent,
    pub ip_address: Option<Ipv4Addr>,
    pub key: PeerKey,
    pub peers_wanted: NumberOfPeers,
    pub port: Port,
}

/// A peer of a torrent, as told to another.
#[derive(Clone, Copy, Debug)]
pub struct ResponsePeer<I> {
    pub ip_address: I,
    pub port: Port,
}

/// The answer to an announce.
#[derive(Clone, Debug)]
pub struct AnnounceResponse<I> {
    pub transaction_id: TransactionId,
    pub announce_interval: AnnounceInterval,
    pub leechers: NumberOfPeers,
    pub seeders: NumberOfPeers,
    pub peers: Vec<ResponsePeer<I>>,
}

/// What a scrape tells of one torrent.
#[derive(Clone, Copy, PartialEq, Eq, Structural, Debug)]
pub struct TorrentScrapeStatistics {
    pub seeders: NumberOfPeers,
    pub completed: NumberOfDownloads,
    pub leechers: NumberOfPeers,
}

} // verus!
