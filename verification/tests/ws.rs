use aquatic::net::{CanonicalSocketAddr, IpAddr, Ipv4Addr, Ipv6Addr, SocketAddr};
use aquatic::ws::{
    ConnectionId, ConnectionMeta, ConsumerId, IpVersion, PendingScrapeId, State,
};

const MAPPED: [u8; 16] = [0, 0, 0, 0, 0, 0, 0, 0, 0, 0, 0xff, 0xff, 10, 20, 30, 40];

fn version(octets: [u8; 16]) -> IpVersion {
    IpVersion::canonical_from_ip(IpAddr::V6(Ipv6Addr(octets)))
}

#[test]
fn ipv4_addresses_are_v4() {
    let ip = IpAddr::V4(Ipv4Addr([1, 2, 3, 4]));
    assert_eq!(IpVersion::canonical_from_ip(ip), IpVersion::V4);
}

#[test]
fn ipv4_mapped_addresses_are_v4() {
    assert_eq!(version(MAPPED), IpVersion::V4);
}

#[test]
fn other_ipv6_addresses_are_v6() {
    assert_eq!(version([0; 16]), IpVersion::V6);
    assert_eq!(version([1; 16]), IpVersion::V6);
    for i in 0..12 {
        let mut octets = MAPPED;
        octets[i] ^= 1;
        assert_eq!(version(octets), IpVersion::V6, "byte {}", i);
    }
}

#[test]
fn canonical_addresses_agree_with_versions() {
    let v4 = SocketAddr::V4 { ip: Ipv4Addr([1, 2, 3, 4]), port: 80 };
    let v6 = SocketAddr::V6 { ip: Ipv6Addr([7; 16]), port: 81, flowinfo: 5, scope_id: 6 };
    let mapped = SocketAddr::V6 { ip: Ipv6Addr(MAPPED), port: 82, flowinfo: 5, scope_id: 6 };
    let unmapped = SocketAddr::V4 { ip: Ipv4Addr([10, 20, 30, 40]), port: 82 };
    for (addr, expected) in [(v4, v4), (v6, v6), (mapped, unmapped)] {
        let canonical = CanonicalSocketAddr::new(addr).get();
        assert_eq!(canonical, expected);
        let is_v4 = matches!(canonical.ip(), IpAddr::V4(_));
        assert_eq!(is_v4, IpVersion::canonical_from_ip(addr.ip()) == IpVersion::V4);
    }
}

#[test]
fn default_state_lists_no_torrents() {
    assert!(State::default().access_list.load().info_hashes.is_empty());
}

#[test]
fn connection_meta_is_copied() {
    let meta = ConnectionMeta {
        out_message_consumer_id: ConsumerId(1),
        connection_id: ConnectionId(2),
        ip_version: IpVersion::V6,
        pending_scrape_id: Some(PendingScrapeId(3)),
    };
    let copy = meta;
    assert_eq!(copy.connection_id, meta.connection_id);
    assert_eq!(copy.out_message_consumer_id.0, 1);
    assert_eq!(copy.pending_scrape_id.unwrap().0, 3);
}
