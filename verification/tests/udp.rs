use aquatic::access_list::{AccessList, AccessListArcSwap};
use aquatic::net::{CanonicalSocketAddr, Ipv4Addr, SocketAddr};
use aquatic::protocol::{AnnounceEvent, InfoHash, NumberOfBytes};
use aquatic::udp::channel::{
    ConnectedRequestSender, ConnectedResponseSender, RequestMessage, RequestWorkerIndex,
    ResponseMessage, SendOutcome, SocketWorkerIndex, TrySendError,
};
use aquatic::udp::config::{CleaningConfig, Config};
use aquatic::udp::message::{
    ConnectedRequest, ConnectedResponse, PendingScrapeRequest, PendingScrapeResponse,
};
use aquatic::udp::peer::PeerStatus;
use aquatic::udp::peer::PeerStatus::{Leeching, Seeding, Stopped};
use aquatic::udp::statistics::{State, Statistics};
use aquatic::udp::MAX_PACKET_SIZE;
use crossbeam_channel::{bounded, Receiver, Sender};
use std::collections::BTreeMap;
use std::sync::atomic::{AtomicUsize, Ordering};
use std::sync::Arc;

fn addr(port: u16) -> CanonicalSocketAddr {
    CanonicalSocketAddr::new(SocketAddr::V4 { ip: Ipv4Addr([10, 0, 0, 1]), port })
}

fn request(slab_key: usize) -> ConnectedRequest {
    let mut info_hashes = BTreeMap::new();
    info_hashes.insert(3, InfoHash([9; 20]));
    ConnectedRequest::Scrape(PendingScrapeRequest { slab_key, info_hashes })
}

fn response(slab_key: usize) -> ConnectedResponse {
    ConnectedResponse::Scrape(PendingScrapeResponse { slab_key, torrent_stats: BTreeMap::new() })
}

fn is_request(message: &RequestMessage, socket_worker: usize, slab_key: usize, port: u16) -> bool {
    let same = match &message.1 {
        ConnectedRequest::Scrape(r) => {
            r.slab_key == slab_key && r.info_hashes.get(&3) == Some(&InfoHash([9; 20]))
        }
        ConnectedRequest::Announce(_) => false,
    };
    same && message.0 .0 == socket_worker && message.2 == addr(port)
}

fn is_response(message: &ResponseMessage, slab_key: usize, port: u16) -> bool {
    let same = match &message.0 {
        ConnectedResponse::Scrape(r) => r.slab_key == slab_key,
        _ => false,
    };
    same && message.1 == addr(port)
}

#[test]
fn test_peer_status_from_event_and_bytes_left() {
    let f = PeerStatus::from_event_and_bytes_left;

    assert_eq!(Stopped, f(AnnounceEvent::Stopped, NumberOfBytes(0)));
    assert_eq!(Stopped, f(AnnounceEvent::Stopped, NumberOfBytes(1)));

    assert_eq!(Seeding, f(AnnounceEvent::Started, NumberOfBytes(0)));
    assert_eq!(Leeching, f(AnnounceEvent::Started, NumberOfBytes(1)));

    assert_eq!(Seeding, f(AnnounceEvent::Completed, NumberOfBytes(0)));
    assert_eq!(Leeching, f(AnnounceEvent::Completed, NumberOfBytes(1)));

    assert_eq!(Seeding, f(AnnounceEvent::NoEvent, NumberOfBytes(0)));
    assert_eq!(Leeching, f(AnnounceEvent::NoEvent, NumberOfBytes(1)));
}

#[test]
fn negative_bytes_left_count_as_bytes_left() {
    let status =
        PeerStatus::from_event_and_bytes_left(AnnounceEvent::NoEvent, NumberOfBytes(-1));
    assert_eq!(status, PeerStatus::Leeching);
}

#[test]
fn torrents_are_spread_by_first_byte() {
    let config =
        Config { request_workers: 3, cleaning: CleaningConfig { max_connection_age: 1 } };
    let mut hash = [0; 20];
    for first in 0..=255u8 {
        hash[0] = first;
        hash[1] = 255 - first;
        let index = RequestWorkerIndex::from_info_hash(&config, InfoHash(hash));
        assert_eq!(index, RequestWorkerIndex(first as usize % 3));
    }
}

#[test]
fn requests_go_to_the_channel_of_their_worker() {
    let (s0, r0): (Sender<RequestMessage>, Receiver<RequestMessage>) = bounded(1);
    let (s1, r1): (Sender<RequestMessage>, Receiver<RequestMessage>) = bounded(1);
    let sender = ConnectedRequestSender::new(SocketWorkerIndex(4), vec![s0, s1.clone()]);
    assert_eq!(sender.len(), 2);

    let (channel, message) = sender.route(RequestWorkerIndex(1), request(7), addr(80));
    assert!(channel.same_channel(&s1));
    assert!(is_request(&message, 4, 7, 80));

    let outcome = sender.try_send_to(RequestWorkerIndex(1), request(7), addr(80));
    assert!(matches!(outcome, SendOutcome::Sent));
    assert!(r0.is_empty());

    match sender.try_send_to(RequestWorkerIndex(1), request(8), addr(81)) {
        SendOutcome::Dropped { channel, message } => {
            assert_eq!(channel, 1);
            assert!(is_request(&message, 4, 8, 81));
        }
        other => panic!("{:?}", other),
    }
    assert!(is_request(&r1.recv().unwrap(), 4, 7, 80));
    assert!(r1.is_empty());

    drop(r0);
    match sender.try_send_to(RequestWorkerIndex(0), request(9), addr(82)) {
        SendOutcome::Disconnected { channel, message } => {
            assert_eq!(channel, 0);
            assert!(is_request(&message, 4, 9, 82));
        }
        other => panic!("{:?}", other),
    }
}

#[test]
fn responses_go_to_the_channel_of_their_worker() {
    let (s0, r0): (Sender<ResponseMessage>, Receiver<ResponseMessage>) = bounded(1);
    let (s1, r1): (Sender<ResponseMessage>, Receiver<ResponseMessage>) = bounded(1);
    let sender = ConnectedResponseSender::new(vec![s0.clone(), s1]);
    assert_eq!(sender.len(), 2);

    let (channel, message) = sender.route(SocketWorkerIndex(0), response(7), addr(80));
    assert!(channel.same_channel(&s0));
    assert!(is_response(&message, 7, 80));

    let outcome = sender.try_send_to(SocketWorkerIndex(0), response(7), addr(80));
    assert!(matches!(outcome, SendOutcome::Sent));
    assert!(r1.is_empty());

    match sender.try_send_to(SocketWorkerIndex(0), response(8), addr(81)) {
        SendOutcome::Dropped { channel, message } => {
            assert_eq!(channel, 0);
            assert!(is_response(&message, 8, 81));
        }
        other => panic!("{:?}", other),
    }
    assert!(is_response(&r0.recv().unwrap(), 7, 80));

    drop(r1);
    match sender.try_send_to(SocketWorkerIndex(1), response(9), addr(82)) {
        SendOutcome::Disconnected { channel, message } => {
            assert_eq!(channel, 1);
            assert!(is_response(&message, 9, 82));
        }
        other => panic!("{:?}", other),
    }
}

#[test]
fn outcomes_follow_results() {
    assert!(matches!(SendOutcome::<u8>::from_result(2, Ok(())), SendOutcome::Sent));
    assert!(matches!(
        SendOutcome::from_result(2, Err(TrySendError::Full(5u8))),
        SendOutcome::Dropped { channel: 2, message: 5 }
    ));
    assert!(matches!(
        SendOutcome::from_result(2, Err(TrySendError::Disconnected(5u8))),
        SendOutcome::Disconnected { channel: 2, message: 5 }
    ));
}

fn all_zero(counters: &[AtomicUsize]) -> bool {
    counters.iter().all(|c| c.load(Ordering::Relaxed) == 0)
}

fn is_new(s: &Statistics, workers: usize) -> bool {
    let single = [
        &s.requests_received,
        &s.responses_sent_connect,
        &s.responses_sent_announce,
        &s.responses_sent_scrape,
        &s.responses_sent_error,
        &s.bytes_received,
        &s.bytes_sent,
    ];
    single.iter().all(|c| c.load(Ordering::Relaxed) == 0)
        && s.torrents.len() == workers
        && s.peers.len() == workers
        && all_zero(&s.torrents)
        && all_zero(&s.peers)
}

#[test]
fn new_statistics_are_zero() {
    assert!(is_new(&Statistics::new(3), 3));
    assert!(is_new(&Statistics::new(0), 0));
}

#[test]
fn clones_of_state_share_counters() {
    let state = State::new(2);
    assert!(state.access_list.load().info_hashes.is_empty());
    assert!(is_new(&state.statistics_ipv4, 2));
    assert!(is_new(&state.statistics_ipv6, 2));
    let clone = state.clone();
    clone.statistics_ipv4.peers[1].fetch_add(5, Ordering::Relaxed);
    assert_eq!(state.statistics_ipv4.peers[1].load(Ordering::Relaxed), 5);
    assert!(is_new(&state.statistics_ipv6, 2));
}

fn list(bytes: &[u8]) -> Arc<AccessList> {
    Arc::new(AccessList { info_hashes: bytes.iter().map(|b| InfoHash([*b; 20])).collect() })
}

#[test]
fn access_lists_start_as_they_are_made() {
    let swap = AccessListArcSwap::new(list(&[1, 2]));
    assert_eq!(swap.load().info_hashes, list(&[1, 2]).info_hashes);
    assert!(AccessListArcSwap::default().load().info_hashes.is_empty());
}

#[test]
fn access_lists_are_replaced_for_all_who_share_them() {
    let state = State::new(1);
    let clone = state.clone();
    let before = clone.access_list.load();
    state.access_list.store(list(&[3]));
    assert_eq!(clone.access_list.load().info_hashes, vec![InfoHash([3; 20])]);
    state.access_list.store(list(&[4, 5]));
    assert_eq!(clone.access_list.load().info_hashes, list(&[4, 5]).info_hashes);
    assert!(before.info_hashes.is_empty());
}

#[test]
fn messages_keep_their_order() {
    let (s, r): (Sender<RequestMessage>, Receiver<RequestMessage>) = bounded(2);
    let sender = ConnectedRequestSender::new(SocketWorkerIndex(0), vec![s]);
    for slab_key in 0..2 {
        let outcome = sender.try_send_to(RequestWorkerIndex(0), request(slab_key), addr(80));
        assert!(matches!(outcome, SendOutcome::Sent));
    }
    assert!(is_request(&r.recv().unwrap(), 0, 0, 80));
    assert!(is_request(&r.recv().unwrap(), 0, 1, 80));
}

#[test]
fn packets_have_room() {
    assert_eq!(MAX_PACKET_SIZE, 8192);
}
