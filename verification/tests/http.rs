use aquatic::access_list::AccessListMode;
use aquatic::http::plan::{AccessListSource, Config, RunPlan, Worker, SHARED_CHANNEL_SIZE};
use aquatic::http::tls::{
    certificates_of, create_tls_config, first_private_key, parse_certificates, parse_private_key,
    private_key_of, server_config, server_config_of, TlsConfigError,
};
use std::io;

/// A PKCS #8 encoded Ed25519 key whose seed is the bytes from 0 to 31.
const KEY: &str = "MC4CAQAwBQYDK2VwBCIEIAABAgMEBQYHCAkKCwwNDg8QERITFBUWFxgZGhscHR4f";

fn section(label: &str, base64: &str) -> String {
    format!("-----BEGIN {}-----\n{}\n-----END {}-----\n", label, base64, label)
}

fn key_der() -> Vec<u8> {
    let mut der = vec![
        0x30, 0x2e, 0x02, 0x01, 0x00, 0x30, 0x05, 0x06, 0x03, 0x2b, 0x65, 0x70, 0x04, 0x22, 0x04,
        0x20,
    ];
    der.extend(0..32u8);
    der
}

fn certificates() -> String {
    section("CERTIFICATE", "AQID") + &section("PRIVATE KEY", KEY) + &section("CERTIFICATE", "BAU=")
}

fn keys() -> String {
    section("CERTIFICATE", "AQID") + &section("PRIVATE KEY", KEY) + &section("PRIVATE KEY", "AQID")
}

#[test]
fn certificates_are_parsed_in_order() {
    let parsed = parse_certificates(certificates().as_bytes()).unwrap();
    assert_eq!(parsed, vec![vec![1, 2, 3], vec![4, 5]]);
    assert!(parse_certificates(b"").unwrap().is_empty());
}

#[test]
fn malformed_certificates_are_errors() {
    let truncated = "-----BEGIN CERTIFICATE-----\nAQID\n";
    let result = parse_certificates(truncated.as_bytes());
    assert!(matches!(result, Err(TlsConfigError::Certificates(_))));
}

#[test]
fn the_first_private_key_counts() {
    assert_eq!(parse_private_key(keys().as_bytes()).unwrap(), key_der());
    assert_eq!(first_private_key(vec![vec![1], vec![2]]).unwrap(), vec![1]);
}

#[test]
fn missing_private_keys_are_errors() {
    assert!(matches!(first_private_key(Vec::new()), Err(TlsConfigError::NoPrivateKeys)));
    let result = parse_private_key(section("CERTIFICATE", "AQID").as_bytes());
    assert!(matches!(result, Err(TlsConfigError::NoPrivateKeys)));
}

#[test]
fn malformed_private_keys_are_errors() {
    let result = parse_private_key(section("PRIVATE KEY", "?").as_bytes());
    assert!(matches!(result, Err(TlsConfigError::PrivateKeys(_))));
}

#[test]
fn server_config_needs_a_usable_key() {
    assert!(server_config(vec![vec![1, 2, 3]], key_der()).is_ok());
    let result = server_config(vec![vec![1, 2, 3]], vec![1, 2, 3]);
    assert!(matches!(result, Err(TlsConfigError::Config(_))));
}

#[test]
fn tls_config_comes_from_two_files() {
    assert!(create_tls_config(certificates().as_bytes(), keys().as_bytes()).is_ok());
}

#[test]
fn the_first_tls_error_counts() {
    let good = certificates();
    let bad = "-----BEGIN CERTIFICATE-----\n";
    let useless = section("PRIVATE KEY", "AQID");
    let error = |c: &str, k: &str| create_tls_config(c.as_bytes(), k.as_bytes()).err().unwrap();
    assert!(matches!(error(bad, bad), TlsConfigError::Certificates(_)));
    assert!(matches!(error(&good, bad), TlsConfigError::PrivateKeys(_)));
    assert!(matches!(error(&good, ""), TlsConfigError::NoPrivateKeys));
    assert!(matches!(error(&good, &useless), TlsConfigError::Config(_)));
}

#[test]
fn errors_are_those_of_the_step_that_failed() {
    match certificates_of(Err(io::Error::new(io::ErrorKind::Other, "certificates"))) {
        Err(TlsConfigError::Certificates(e)) => assert_eq!(e.to_string(), "certificates"),
        other => panic!("{:?}", other),
    }
    match private_key_of(Err(io::Error::new(io::ErrorKind::Other, "keys"))) {
        Err(TlsConfigError::PrivateKeys(e)) => assert_eq!(e.to_string(), "keys"),
        other => panic!("{:?}", other),
    }
    match server_config_of(Err(rustls::Error::HandshakeNotComplete)).err().unwrap() {
        TlsConfigError::Config(e) => assert_eq!(e, rustls::Error::HandshakeNotComplete),
        other => panic!("{:?}", other),
    }
    assert_eq!(certificates_of(Ok(vec![vec![1]])).unwrap(), vec![vec![1]]);
    assert_eq!(private_key_of(Ok(vec![vec![1], vec![2]])).unwrap(), vec![1]);
    assert!(matches!(private_key_of(Ok(Vec::new())), Err(TlsConfigError::NoPrivateKeys)));
}

#[test]
fn errors_carry_what_is_wrong() {
    let bad = "-----BEGIN CERTIFICATE-----\n";
    match create_tls_config(bad.as_bytes(), b"").err().unwrap() {
        TlsConfigError::Certificates(e) => {
            assert_eq!(e.kind(), io::ErrorKind::InvalidData);
            assert!(e.to_string().contains("END CERTIFICATE"));
        }
        other => panic!("{:?}", other),
    }
    let useless = section("PRIVATE KEY", "AQID");
    match create_tls_config(b"", useless.as_bytes()).err().unwrap() {
        TlsConfigError::Config(e) => {
            assert_eq!(e, rustls::Error::General("invalid private key".to_string()));
        }
        other => panic!("{:?}", other),
    }
}

#[test]
fn keys_after_the_first_are_ignored() {
    let one = section("PRIVATE KEY", KEY);
    let two = section("PRIVATE KEY", KEY) + &section("PRIVATE KEY", "AQID");
    assert!(create_tls_config(certificates().as_bytes(), one.as_bytes()).is_ok());
    assert!(create_tls_config(certificates().as_bytes(), two.as_bytes()).is_ok());
    let swapped = section("PRIVATE KEY", "AQID") + &section("PRIVATE KEY", KEY);
    assert!(create_tls_config(certificates().as_bytes(), swapped.as_bytes()).is_err());
}

#[test]
fn all_workers_are_planned_in_order() {
    let plan = RunPlan::new(&Config { socket_workers: 2, request_workers: 3 });
    assert_eq!(plan.num_peers, 5);
    assert_eq!(plan.channel_size, 1024);
    assert_eq!(SHARED_CHANNEL_SIZE, 1024);
    assert_eq!(
        plan.workers,
        vec![
            Worker::Socket(0),
            Worker::Socket(1),
            Worker::Request(0),
            Worker::Request(1),
            Worker::Request(2),
        ]
    );
}

#[test]
fn no_workers_are_planned_where_none_are_asked_for() {
    let plan = RunPlan::new(&Config { socket_workers: 0, request_workers: 0 });
    assert_eq!(plan.num_peers, 0);
    assert!(plan.workers.is_empty());
}

#[test]
fn the_access_list_is_read_where_it_is_used() {
    let source = AccessListSource::from_mode;
    assert_eq!(source(AccessListMode::Allow), AccessListSource::File);
    assert_eq!(source(AccessListMode::Deny), AccessListSource::File);
    assert_eq!(source(AccessListMode::Off), AccessListSource::Empty);
}
