//! Shared by the workers of the WebSocket tracker.

use crate::access_list::{initial_list, AccessListArcSwap};
use crate::net::{is_ipv4_mapped, CanonicalSocketAddr, IpAddr, SocketAddr};
use crate::protocol::{InfoHash, PeerId};
use std::sync::Arc;
use vstd::prelude::*;

verus! {

/// The version of the address that a peer is known by.
#[derive(Copy, Clone, PartialEq, Eq, Structural, Debug)]
pub enum IpVersion {
    V4,
    V6,
}

/// The version of `ip`, with an IPv4-mapped IPv6 address taken for the IPv4 address that
/// it stands for.
pub open spec fn canonical_version(ip: IpAddr) -> IpVersion {
    match ip {
        IpAddr::V4(_) => IpVersion::V4,
        IpAddr::V6(addr) => if is_ipv4_mapped(addr.0@) {
            IpVersion::V4
        } else {
            IpVersion::V6
        },
    }
}

impl IpVersion {
    /// The version of `ip`, with an IPv4-mapped IPv6 address counted as IPv4.
    pub fn canonical_from_ip(ip: IpAddr) -> (version: IpVersion)
        ensures
            version == canonical_version(ip),
            match ip {
                IpAddr::V4(_) => version == IpVersion::V4,
                IpAddr::V6(addr) => version == IpVersion::V4 <==> (forall|i: int|
                    0 <= i < 10 ==> addr.0@[i] == 0) && addr.0@[10] == 0xff && addr.0@[11] == 0xff,
            },
    {
        match ip {
            IpAddr::V4(_) => IpVersion::V4,
            IpAddr::V6(addr) => match addr.to_ipv4_mapped() {
                Some(_) => IpVersion::V4,
                None => IpVersion::V6,
            },
        }
    }
}

/// An address in canonical form is of the version that it is written in.
pub proof fn canonical_addresses_keep_their_version(ip: IpAddr)
    requires
        ip.is_canonical(),
    ensures
        canonical_version(ip) == IpVersion::V4 <==> ip is V4,
        canonical_version(ip) == IpVersion::V6 <==> ip is V6,
{
}

/// The version of an address, in canonical form or not, is that of its canonical form.
pub proof fn versions_are_those_of_canonical_forms(
    addr: SocketAddr,
    canonical: CanonicalSocketAddr,
)
    requires
        canonical.is_form_of(addr),
    ensures
        canonical_version(addr.ip()) == canonical_version(canonical.get().ip()),
        canonical_version(addr.ip()) == IpVersion::V4 <==> canonical.get() is V4,
        canonical_version(addr.ip()) == IpVersion::V6 <==> canonical.get() is V6,
{
}

/// An IPv6 address counts as IPv4 if its first ten bytes are zero and its next two are 0xff,
/// whatever the last four are, and only then.
pub proof fn versions_depend_on_the_first_twelve_bytes(ip: IpAddr)
    requires
        ip is V6,
    ensures
        canonical_version(ip) == IpVersion::V4 <==> ip.octets().take(12) == seq![
            0u8,
            0u8,
            0u8,
            0u8,
            0u8,
            0u8,
            0u8,
            0u8,
            0u8,
            0u8,
            0xffu8,
            0xffu8,
        ],
{
    let first = ip.octets().take(12);
    let mapped = seq![0u8, 0u8, 0u8, 0u8, 0u8, 0u8, 0u8, 0u8, 0u8, 0u8, 0xffu8, 0xffu8];
    if first == mapped {
        assert forall|i: int| 0 <= i < 12 implies ip.octets()[i] == mapped[i] by {
            assert(first[i] == mapped[i]);
        }
    }
    if canonical_version(ip) == IpVersion::V4 {
        assert(first =~= mapped);
    }
}

/// State shared by all workers.
#[derive(Clone)]
pub struct State {
    pub access_list: Arc<AccessListArcSwap>,
}

impl Default for State {
    /// State with an empty access list.
    fn default() -> (state: Self)
        ensures
            initial_list(*state.access_list) == Seq::<InfoHash>::empty(),
    {
        State { access_list: Arc::new(AccessListArcSwap::default()) }
    }
}

/// Index of a scrape that waits for the responses of several workers.
#[derive(Copy, Clone, Debug)]
pub struct PendingScrapeId(pub usize);

/// Index of the worker that sends messages out.
#[derive(Copy, Clone, Debug)]
pub struct ConsumerId(pub usize);

/// Index of a connection in the worker that holds it.
#[derive(Clone, Copy, Debug, PartialEq, Structural)]
pub struct ConnectionId(pub usize);

/// Goes with each request, so that the response finds the way back.
#[derive(Clone, Copy, Debug)]
pub struct ConnectionMeta {
    /// Index of the socket worker responsible for this connection. Required for sending
    /// back a response through the correct channel to the correct worker.
    pub out_message_consumer_id: ConsumerId,
    pub connection_id: ConnectionId,
    pub ip_version: IpVersion,
    pub pending_scrape_id: Option<PendingScrapeId>,
}

/// Told to the workers that keep the swarms.
#[derive(Clone, Copy, Debug)]
pub enum SwarmControlMessage {
    ConnectionClosed { info_hash: InfoHash, peer_id: PeerId, ip_version: IpVersion },
}

} // verus!
