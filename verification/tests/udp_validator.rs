use aquatic::net::{CanonicalSocketAddr, Ipv4Addr, Ipv6Addr, SocketAddr};
use aquatic::protocol::ConnectionId;
use aquatic::udp::config::{CleaningConfig, Config};
use aquatic::udp::validator::{ConnectionValidator, NewValidatorError};

const KEY: [u8; 32] = [7; 32];
const SEC: u128 = 1_000_000_000;

fn config(max_connection_age: u64) -> Config {
    Config { request_workers: 1, cleaning: CleaningConfig { max_connection_age } }
}

fn validator(max_connection_age: u64) -> ConnectionValidator {
    ConnectionValidator::with_key(&config(max_connection_age), &KEY)
}

fn v4(last: u8, port: u16) -> CanonicalSocketAddr {
    CanonicalSocketAddr::new(SocketAddr::V4 { ip: Ipv4Addr([10, 0, 0, last]), port })
}

fn v6(last: u8, port: u16) -> CanonicalSocketAddr {
    let mut octets = [0x20; 16];
    octets[15] = last;
    let ip = Ipv6Addr(octets);
    CanonicalSocketAddr::new(SocketAddr::V6 { ip, port, flowinfo: 0, scope_id: 0 })
}

fn expected_id(secs: u32, ip: &[u8]) -> ConnectionId {
    let mut bytes = [0u8; 8];
    bytes[..4].copy_from_slice(&secs.to_ne_bytes());
    let mut message = secs.to_ne_bytes().to_vec();
    message.extend_from_slice(ip);
    bytes[4..].copy_from_slice(&blake3::keyed_hash(&KEY, &message).as_bytes()[..4]);
    ConnectionId(i64::from_ne_bytes(bytes))
}

#[test]
fn ids_hold_time_and_keyed_hash() {
    let mut v = validator(10);
    assert_eq!(v.create_connection_id_at(5, v4(1, 80)), expected_id(5, &[10, 0, 0, 1]));
    let mut octets = [0x20; 16];
    octets[15] = 9;
    assert_eq!(v.create_connection_id_at(77, v6(9, 80)), expected_id(77, &octets));
}

#[test]
fn ids_hold_the_lower_bits_of_late_times() {
    let mut v = validator(10);
    let late = v.create_connection_id_at((1 << 32) + 3, v4(1, 80));
    assert_eq!(late, expected_id(3, &[10, 0, 0, 1]));
    assert!(!v.connection_id_valid_at(((1u128 << 32) + 3) * SEC, v4(1, 80), late));
}

#[test]
fn ids_are_accepted_until_too_old() {
    for addr in [v4(1, 80), v6(1, 80)] {
        let mut v = validator(10);
        let id = v.create_connection_id_at(5, addr);
        assert!(v.connection_id_valid_at(0, addr, id));
        assert!(v.connection_id_valid_at(5 * SEC, addr, id));
        assert!(v.connection_id_valid_at(15 * SEC - 1, addr, id));
        assert!(!v.connection_id_valid_at(15 * SEC, addr, id));
        assert!(!v.connection_id_valid_at(15 * SEC + 1, addr, id));
    }
}

#[test]
fn ids_with_no_age_allowed_are_never_accepted() {
    let mut v = validator(0);
    let id = v.create_connection_id_at(5, v4(1, 80));
    assert!(!v.connection_id_valid_at(5 * SEC, v4(1, 80), id));
}

#[test]
fn ids_do_not_depend_on_ports() {
    let mut v = validator(10);
    let id = v.create_connection_id_at(5, v4(1, 80));
    assert_eq!(id, v.create_connection_id_at(5, v4(1, 81)));
    assert!(v.connection_id_valid_at(6 * SEC, v4(1, 81), id));
}

#[test]
fn ids_are_bound_to_address_and_key() {
    let mut v = validator(10);
    let id = v.create_connection_id_at(5, v4(1, 80));
    assert!(!v.connection_id_valid_at(6 * SEC, v4(2, 80), id));
    assert!(!v.connection_id_valid_at(6 * SEC, v6(1, 80), id));
    let mut other = ConnectionValidator::with_key(&config(10), &[8; 32]);
    assert!(!other.connection_id_valid_at(6 * SEC, v4(1, 80), id));
}

#[test]
fn altered_ids_are_rejected() {
    let mut v = validator(10);
    let id = v.create_connection_id_at(5, v4(1, 80));
    for bit in 0..64 {
        let altered = ConnectionId(id.0 ^ (1i64 << bit));
        assert!(!v.connection_id_valid_at(6 * SEC, v4(1, 80), altered), "bit {}", bit);
    }
    assert!(v.connection_id_valid_at(6 * SEC, v4(1, 80), id));
}

#[test]
fn calls_leave_nothing_behind() {
    let mut v = validator(10);
    let first = v.create_connection_id_at(5, v4(1, 80));
    v.create_connection_id(v6(3, 80));
    v.connection_id_valid(v4(2, 80), first);
    v.connection_id_valid_at(7 * SEC, v6(1, 80), ConnectionId(-1));
    v.checked_connection_id_valid(v4(1, 80), ConnectionId(0));
    assert_eq!(first, v.create_connection_id_at(5, v4(1, 80)));
    assert!(v.connection_id_valid_at(15 * SEC - 1, v4(1, 80), first));
    assert!(!v.connection_id_valid_at(15 * SEC, v4(1, 80), first));
}

#[test]
fn ids_of_different_times_differ() {
    let mut v = validator(10);
    let id = v.create_connection_id_at(5, v4(1, 80));
    assert_ne!(id, v.create_connection_id_at(6, v4(1, 80)));
    assert_eq!(id, v.create_connection_id_at(5, v4(1, 80)));
}

#[test]
fn ids_are_known_again_by_the_clock() {
    let mut v = validator(3600);
    let id = v.create_connection_id(v4(1, 80));
    assert!(v.connection_id_valid(v4(1, 80), id));
    assert!(!v.connection_id_valid(v4(2, 80), id));
    assert_eq!(v.checked_connection_id_valid(v4(1, 80), id), Some(true));
    let mut strict = validator(0);
    let id = strict.create_connection_id(v4(1, 80));
    assert!(!strict.connection_id_valid(v4(1, 80), id));
    assert_eq!(strict.checked_connection_id_valid(v4(1, 80), id), Some(false));
}

#[test]
fn ids_made_by_the_clock_count_from_the_start_of_the_validator() {
    let mut v = validator(3600);
    let early = [v.create_connection_id_at(0, v4(1, 80)), v.create_connection_id_at(1, v4(1, 80))];
    assert!(early.contains(&v.create_connection_id(v4(1, 80))));
    let mut short = validator(1);
    let id = short.create_connection_id_at(0, v4(1, 80));
    assert!(short.connection_id_valid(v4(1, 80), id));
    crossbeam_channel::after(std::time::Duration::from_millis(1100)).recv().unwrap();
    assert!(!short.connection_id_valid(v4(1, 80), id));
    let late = short.create_connection_id(v4(1, 80));
    assert_ne!(late, id);
    assert!(short.connection_id_valid(v4(1, 80), late));
}

#[test]
fn deadlines_too_late_to_be_told_are_reported() {
    let mut v = validator(u64::MAX);
    let first = v.create_connection_id_at(0, v4(1, 80));
    assert_eq!(v.checked_connection_id_valid(v4(1, 80), first), Some(true));
    let second = v.create_connection_id_at(1, v4(1, 80));
    assert_eq!(v.checked_connection_id_valid(v4(1, 80), second), None);
    assert_eq!(v.checked_connection_id_valid(v4(2, 80), second), Some(false));
}

#[test]
fn clones_agree() {
    let mut v = validator(10);
    let mut clone = v.clone();
    let id = v.create_connection_id_at(5, v4(1, 80));
    assert_eq!(id, clone.create_connection_id_at(5, v4(1, 80)));
    assert!(clone.connection_id_valid_at(6 * SEC, v4(1, 80), id));
    assert!(!clone.connection_id_valid_at(15 * SEC, v4(1, 80), id));
}

#[test]
fn new_validators_have_keys_of_their_own() {
    let mut a = ConnectionValidator::new(&config(10)).unwrap();
    let mut b = ConnectionValidator::new(&config(10)).unwrap();
    let ids: Vec<ConnectionId> =
        (0u64..4).map(|i: u64| a.create_connection_id_at(i, v4(1, 80))).collect();
    let other: Vec<ConnectionId> =
        (0u64..4).map(|i: u64| b.create_connection_id_at(i, v4(1, 80))).collect();
    assert_ne!(ids, other);
    assert!(a.connection_id_valid_at(0, v4(1, 80), ids[3]));
}

#[test]
fn no_key_no_validator() {
    let error = getrandom::Error::UNSUPPORTED;
    match ConnectionValidator::from_random_key(&config(10), Err(error)) {
        Err(NewValidatorError::Random(e)) => assert_eq!(e, error),
        Ok(_) => panic!("a validator without a key"),
    }
    let mut v = ConnectionValidator::from_random_key(&config(10), Ok(KEY)).unwrap();
    assert_eq!(v.create_connection_id_at(5, v4(1, 80)), expected_id(5, &[10, 0, 0, 1]));
}
