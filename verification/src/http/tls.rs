//! TLS settings from PEM files.

use vstd::prelude::*;

verus! {

/// `std::io::Error`, what a reader fails with.
#[verifier::external_type_specification]
#[verifier::external_body]
pub struct ExIoError(std::io::Error);

/// `rustls::ServerConfig`, the settings of a TLS server.
#[verifier::external_type_specification]
#[verifier::external_body]
pub struct ExServerConfig(rustls::ServerConfig);

/// `rustls::Error`, why there are no settings.
#[verifier::external_type_specification]
#[verifier::external_body]
pub struct ExTlsError(rustls::Error);

/// The certificates in a PEM file, in the order of the file; nothing if it is malformed.
pub uninterp spec fn pem_certs(pem: Seq<u8>) -> Option<Seq<Seq<u8>>>;

/// The PKCS #8 private keys in a PEM file, in the order of the file; nothing if it is
/// malformed.
pub uninterp spec fn pem_pkcs8_private_keys(pem: Seq<u8>) -> Option<Seq<Seq<u8>>>;

/// Whether `error` is the one, in kind and text, that reading the certificates of a malformed PEM
/// file ends in.
pub uninterp spec fn is_certs_error(pem: Seq<u8>, error: std::io::Error) -> bool;

/// Whether `error` is the one, in kind and text, that reading the PKCS #8 private keys of a
/// malformed PEM file ends in.
pub uninterp spec fn is_private_keys_error(pem: Seq<u8>, error: std::io::Error) -> bool;

/// Whether `error` is the one, in variant and text, that settings with a key of no use end in.
pub uninterp spec fn is_config_error(key: Seq<u8>, error: rustls::Error) -> bool;

/// The kinds of private key that a server can sign with.
pub enum PrivateKeyKind {
    Rsa,
    Ecdsa,
    Ed25519,
}

/// The kind of private key that the bytes are the DER encoding of, the first that fits in the
/// order above; nothing if they are no such key.
pub uninterp spec fn private_key_kind(key: Seq<u8>) -> Option<PrivateKeyKind>;

/// The certificate chain that the server shows.
pub uninterp spec fn server_cert_chain(config: rustls::ServerConfig) -> Seq<Seq<u8>>;

/// The private key, as DER, that the server signs with.
pub uninterp spec fn server_private_key(config: rustls::ServerConfig) -> Seq<u8>;

/// Whether the server asks clients for a certificate.
pub uninterp spec fn server_asks_for_client_cert(config: rustls::ServerConfig) -> bool;

/// Whether cipher suites, key exchange groups and protocol versions are the safe defaults.
pub uninterp spec fn server_has_safe_defaults(config: rustls::ServerConfig) -> bool;

/// The bytes of each item.
pub open spec fn contents(items: Seq<Vec<u8>>) -> Seq<Seq<u8>> {
    items.map_values(|item: Vec<u8>| item@)
}

/// `rustls_pemfile::certs`: the DER contents of all certificates in a PEM file, or an error if
/// the file is malformed. Both depend on the bytes of the file alone.
#[verifier::external_body]
fn certs(pem: &[u8]) -> (certs: Result<Vec<Vec<u8>>, std::io::Error>)
    ensures
        certs matches Ok(c) ==> pem_certs(pem@) == Some(contents(c@)),
        certs matches Err(e) ==> pem_certs(pem@) is None && is_certs_error(pem@, e),
{
    let mut reader = pem;
    rustls_pemfile::certs(&mut reader)
}

/// `rustls_pemfile::pkcs8_private_keys`: the DER contents of all PKCS #8 private keys in a PEM
/// file, or an error if the file is malformed. Both depend on the bytes of the file alone.
#[verifier::external_body]
fn pkcs8_private_keys(pem: &[u8]) -> (keys: Result<Vec<Vec<u8>>, std::io::Error>)
    ensures
        keys matches Ok(k) ==> pem_pkcs8_private_keys(pem@) == Some(contents(k@)),
        keys matches Err(e) ==> pem_pkcs8_private_keys(pem@) is None && is_private_keys_error(
            pem@,
            e,
        ),
{
    let mut reader = pem;
    rustls_pemfile::pkcs8_private_keys(&mut reader)
}

/// `rustls::ServerConfig::builder`, `with_safe_defaults`, `with_no_client_auth` and
/// `with_single_cert`: settings with the safe defaults, that ask clients for no certificate,
/// and that hold the certificates and the key given. Fails if the key is invalid, and succeeds
/// if it is an RSA or Ed25519 key. The error depends on the key alone. That it succeeds with an
/// ECDSA key is not claimed: those are only taken while the operating system has randomness to
/// give.
#[verifier::external_body]
fn with_single_cert(certs: Vec<Vec<u8>>, key: Vec<u8>) -> (config: Result<
    rustls::ServerConfig,
    rustls::Error,
>)
    ensures
        config matches Ok(c) ==> server_cert_chain(c) == contents(certs@) && server_private_key(c)
            == key@ && private_key_kind(key@) is Some,
        config matches Ok(c) ==> !server_asks_for_client_cert(c) && server_has_safe_defaults(c),
        private_key_kind(key@) == Some(PrivateKeyKind::Rsa) || private_key_kind(key@) == Some(
            PrivateKeyKind::Ed25519,
        ) ==> config is Ok,
        config matches Err(e) ==> is_config_error(key@, e),
{
    rustls::ServerConfig::builder()
        .with_safe_defaults()
        .with_no_client_auth()
        .with_single_cert(
            certs.into_iter().map(rustls::Certificate).collect(),
            rustls::PrivateKey(key),
        )
}

/// Why there are no TLS settings.
#[derive(Debug)]
pub enum TlsConfigError {
    /// The file with the certificates is malformed.
    Certificates(std::io::Error),
    /// The file with the private key is malformed.
    PrivateKeys(std::io::Error),
    /// There is no private key in the file.
    NoPrivateKeys,
    /// The private key is of no use.
    Config(rustls::Error),
}

/// Whether a key is taken whatever randomness there is.
pub open spec fn always_usable(key: Seq<u8>) -> bool {
    private_key_kind(key) matches Some(kind) && kind != PrivateKeyKind::Ecdsa
}

/// The certificates, or the error that reading them ended in.
pub fn certificates_of(result: Result<Vec<Vec<u8>>, std::io::Error>) -> (certificates: Result<
    Vec<Vec<u8>>,
    TlsConfigError,
>)
    ensures
        certificates == (match result {
            Ok(c) => Ok::<Vec<Vec<u8>>, TlsConfigError>(c),
            Err(e) => Err(TlsConfigError::Certificates(e)),
        }),
{
    match result {
        Ok(certificates) => Ok(certificates),
        Err(error) => Err(TlsConfigError::Certificates(error)),
    }
}

/// The first of the private keys, of which there must be one.
pub fn first_private_key(keys: Vec<Vec<u8>>) -> (key: Result<Vec<u8>, TlsConfigError>)
    ensures
        match key {
            Ok(k) => keys@.len() > 0 && k@ == keys@[0]@,
            Err(e) => keys@.len() == 0 && e == TlsConfigError::NoPrivateKeys,
        },
{
    if keys.len() > 0 {
        Ok(keys[0].clone())
    } else {
        Err(TlsConfigError::NoPrivateKeys)
    }
}

/// The first of the private keys, of which there must be one, or the error that reading them
/// ended in.
pub fn private_key_of(result: Result<Vec<Vec<u8>>, std::io::Error>) -> (key: Result<
    Vec<u8>,
    TlsConfigError,
>)
    ensures
        match (result, key) {
            (Ok(keys), Ok(k)) => keys@.len() > 0 && k@ == keys@[0]@,
            (Ok(keys), Err(e)) => keys@.len() == 0 && e == TlsConfigError::NoPrivateKeys,
            (Err(error), Err(e)) => e == TlsConfigError::PrivateKeys(error),
            (Err(_), Ok(_)) => false,
        },
{
    match result {
        Ok(keys) => first_private_key(keys),
        Err(error) => Err(TlsConfigError::PrivateKeys(error)),
    }
}

/// The settings, or the error that making them ended in.
pub fn server_config_of(result: Result<rustls::ServerConfig, rustls::Error>) -> (config: Result<
    rustls::ServerConfig,
    TlsConfigError,
>)
    ensures
        config == (match result {
            Ok(c) => Ok::<rustls::ServerConfig, TlsConfigError>(c),
            Err(e) => Err(TlsConfigError::Config(e)),
        }),
{
    match result {
        Ok(config) => Ok(config),
        Err(error) => Err(TlsConfigError::Config(error)),
    }
}

/// The certificates in a PEM file, as DER, or the error that the file gives.
pub fn parse_certificates(pem: &[u8]) -> (certificates: Result<Vec<Vec<u8>>, TlsConfigError>)
    ensures
        match certificates {
            Ok(c) => pem_certs(pem@) == Some(contents(c@)),
            Err(TlsConfigError::Certificates(e)) => pem_certs(pem@) is None && is_certs_error(
                pem@,
                e,
            ),
            Err(_) => false,
        },
{
    certificates_of(certs(pem))
}

/// The first PKCS #8 private key in a PEM file, as DER, or the error that the file gives.
pub fn parse_private_key(pem: &[u8]) -> (key: Result<Vec<u8>, TlsConfigError>)
    ensures
        match key {
            Ok(k) => pem_pkcs8_private_keys(pem@) matches Some(keys) && keys.len() > 0 && k@
                == keys[0],
            Err(TlsConfigError::PrivateKeys(e)) => pem_pkcs8_private_keys(pem@) is None
                && is_private_keys_error(pem@, e),
            Err(TlsConfigError::NoPrivateKeys) => pem_pkcs8_private_keys(pem@) == Some(
                Seq::<Seq<u8>>::empty(),
            ),
            Err(_) => false,
        },
{
    let keys = pkcs8_private_keys(pem);
    assert(keys matches Ok(k) ==> k@.len() == 0 ==> contents(k@) =~= Seq::<Seq<u8>>::empty());
    private_key_of(keys)
}

/// Settings of a server that shows the certificates given, signs with the key given, and
/// asks clients for no certificate, or the error that the key gives. Succeeds with an RSA or
/// Ed25519 key, and fails if the key is invalid. Whether it succeeds with an ECDSA key depends
/// on the randomness that the operating system has, and is not stated.
pub fn server_config(certificates: Vec<Vec<u8>>, private_key: Vec<u8>) -> (config: Result<
    rustls::ServerConfig,
    TlsConfigError,
>)
    ensures
        is_server_config(contents(certificates@), private_key@, config),
        config matches Ok(c) ==> {
            &&& server_cert_chain(c).len() == certificates@.len()
            &&& forall|i: int|
                0 <= i < certificates@.len() ==> #[trigger] server_cert_chain(c)[i]
                    == certificates@[i]@
            &&& server_private_key(c) == private_key@
            &&& private_key_kind(private_key@) is Some
            &&& !server_asks_for_client_cert(c)
            &&& server_has_safe_defaults(c)
        },
        private_key_kind(private_key@) == Some(PrivateKeyKind::Rsa) || private_key_kind(
            private_key@,
        ) == Some(PrivateKeyKind::Ed25519) ==> config is Ok,
        config matches Err(error) ==> (error matches TlsConfigError::Config(e) && is_config_error(
            private_key@,
            e,
        )),
{
    server_config_of(with_single_cert(certificates, private_key))
}

/// Whether `config` is what a chain of certificates and a private key, both as DER, may give.
pub open spec fn is_server_config(
    certificates: Seq<Seq<u8>>,
    private_key: Seq<u8>,
    config: Result<rustls::ServerConfig, TlsConfigError>,
) -> bool {
    match config {
        Ok(c) => {
            &&& server_cert_chain(c) == certificates
            &&& server_private_key(c) == private_key
            &&& private_key_kind(private_key) is Some
            &&& !server_asks_for_client_cert(c)
            &&& server_has_safe_defaults(c)
        },
        Err(TlsConfigError::Config(e)) => !always_usable(private_key) && is_config_error(
            private_key,
            e,
        ),
        Err(_) => false,
    }
}

/// Whether `config` is what two PEM files, one with certificates and one with private keys, may
/// give. Of several errors the first counts: malformed certificates, then malformed private
/// keys, then none at all, then a first key of no use. The error carried is that of the step
/// that failed.
pub open spec fn is_tls_config(
    certificate_pem: Seq<u8>,
    private_key_pem: Seq<u8>,
    config: Result<rustls::ServerConfig, TlsConfigError>,
) -> bool {
    match (pem_certs(certificate_pem), pem_pkcs8_private_keys(private_key_pem)) {
        (None, _) => config matches Err(TlsConfigError::Certificates(e)) && is_certs_error(
            certificate_pem,
            e,
        ),
        (Some(_), None) => config matches Err(TlsConfigError::PrivateKeys(e))
            && is_private_keys_error(private_key_pem, e),
        (Some(certificates), Some(keys)) => if keys.len() == 0 {
            config == Err::<rustls::ServerConfig, TlsConfigError>(TlsConfigError::NoPrivateKeys)
        } else {
            is_server_config(certificates, keys[0], config)
        },
    }
}

/// Settings of a server from two PEM files: one with its certificates, one whose first
/// PKCS #8 private key it signs with.
pub fn create_tls_config(certificate_pem: &[u8], private_key_pem: &[u8]) -> (config: Result<
    rustls::ServerConfig,
    TlsConfigError,
>)
    ensures
        is_tls_config(certificate_pem@, private_key_pem@, config),
        config matches Ok(c) ==> pem_certs(certificate_pem@) == Some(server_cert_chain(c)),
        config matches Ok(c) ==> (pem_pkcs8_private_keys(private_key_pem@) matches Some(keys)
            && keys.len() > 0 && server_private_key(c) == keys[0]),
        config matches Ok(c) ==> !server_asks_for_client_cert(c) && server_has_safe_defaults(c),
        config matches Err(TlsConfigError::Certificates(_)) <==> pem_certs(
            certificate_pem@,
        ) is None,
        config matches Err(TlsConfigError::PrivateKeys(_)) <==> pem_certs(certificate_pem@) is Some
            && pem_pkcs8_private_keys(private_key_pem@) is None,
        config matches Err(TlsConfigError::NoPrivateKeys) <==> pem_certs(certificate_pem@) is Some
            && (pem_pkcs8_private_keys(private_key_pem@) matches Some(keys) && keys.len() == 0),
        config matches Err(TlsConfigError::Certificates(e)) ==> is_certs_error(certificate_pem@, e),
        config matches Err(TlsConfigError::PrivateKeys(e)) ==> is_private_keys_error(
            private_key_pem@,
            e,
        ),
        config matches Err(TlsConfigError::Config(e)) ==> (pem_pkcs8_private_keys(
            private_key_pem@,
        ) matches Some(keys) && keys.len() > 0 && is_config_error(keys[0], e) && private_key_kind(
            keys[0],
        ) != Some(PrivateKeyKind::Rsa) && private_key_kind(keys[0]) != Some(
            PrivateKeyKind::Ed25519,
        )),
{
    let certificates = match parse_certificates(certificate_pem) {
        Ok(certificates) => certificates,
        Err(error) => return Err(error),
    };
    let private_key = match parse_private_key(private_key_pem) {
        Ok(private_key) => private_key,
        Err(error) => return Err(error),
    };
    server_config(certificates, private_key)
}

/// Nothing is left out of a list of items, and nothing is changed.
pub proof fn contents_are_whole(items: Seq<Vec<u8>>)
    ensures
        contents(items).len() == items.len(),
        forall|i: int| 0 <= i < items.len() ==> #[trigger] contents(items)[i] == items[i]@,
{
}

/// A server shows all certificates in the file, in their order, and signs with the first
/// private key in the other file. It asks clients for no certificate.
pub proof fn servers_show_all_certificates(
    certificate_pem: Seq<u8>,
    private_key_pem: Seq<u8>,
    config: rustls::ServerConfig,
)
    requires
        is_tls_config(
            certificate_pem,
            private_key_pem,
            Ok::<rustls::ServerConfig, TlsConfigError>(config),
        ),
    ensures
        pem_certs(certificate_pem) == Some(server_cert_chain(config)),
        pem_pkcs8_private_keys(private_key_pem) matches Some(keys) && keys.len() > 0
            && server_private_key(config) == keys[0],
        !server_asks_for_client_cert(config),
        server_has_safe_defaults(config),
{
}

/// Two files of certificates that give servers with the same chain hold the same certificates.
pub proof fn chains_tell_certificates_apart(
    certificate_pem: Seq<u8>,
    config: rustls::ServerConfig,
    other_pem: Seq<u8>,
    other_config: rustls::ServerConfig,
    private_key_pem: Seq<u8>,
)
    requires
        is_tls_config(
            certificate_pem,
            private_key_pem,
            Ok::<rustls::ServerConfig, TlsConfigError>(config),
        ),
        is_tls_config(
            other_pem,
            private_key_pem,
            Ok::<rustls::ServerConfig, TlsConfigError>(other_config),
        ),
    ensures
        server_cert_chain(config) == server_cert_chain(other_config) <==> pem_certs(certificate_pem)
            == pem_certs(other_pem),
{
}

/// Each step can fail, and only if those before it have not: malformed certificates, malformed
/// private keys, none at all, a first one of no use. A first key that is an RSA or Ed25519 key
/// is of use.
pub proof fn the_first_error_counts(
    certificate_pem: Seq<u8>,
    private_key_pem: Seq<u8>,
    config: Result<rustls::ServerConfig, TlsConfigError>,
)
    requires
        is_tls_config(certificate_pem, private_key_pem, config),
    ensures
        config matches Err(TlsConfigError::Certificates(_)) <==> pem_certs(certificate_pem) is None,
        config matches Err(TlsConfigError::PrivateKeys(_)) <==> pem_certs(certificate_pem) is Some
            && pem_pkcs8_private_keys(private_key_pem) is None,
        config matches Err(TlsConfigError::NoPrivateKeys) <==> pem_certs(certificate_pem) is Some
            && (pem_pkcs8_private_keys(private_key_pem) matches Some(keys) && keys.len() == 0),
        config matches Err(TlsConfigError::Config(_)) ==> pem_certs(certificate_pem) is Some && (
        pem_pkcs8_private_keys(private_key_pem) matches Some(keys) && keys.len() > 0
            && private_key_kind(keys[0]) != Some(PrivateKeyKind::Rsa) && private_key_kind(keys[0])
            != Some(PrivateKeyKind::Ed25519)),
{
}

/// Keys after the first are ignored: two key files whose first keys are equal may give the same
/// settings and the same errors with the same certificates.
pub proof fn only_the_first_private_key_counts(
    certificate_pem: Seq<u8>,
    private_key_pem: Seq<u8>,
    other_key_pem: Seq<u8>,
    config: Result<rustls::ServerConfig, TlsConfigError>,
)
    requires
        pem_pkcs8_private_keys(private_key_pem) matches Some(keys) && keys.len() > 0,
        pem_pkcs8_private_keys(other_key_pem) matches Some(keys) && keys.len() > 0,
        pem_pkcs8_private_keys(private_key_pem).unwrap()[0] == pem_pkcs8_private_keys(
            other_key_pem,
        ).unwrap()[0],
    ensures
        is_tls_config(certificate_pem, private_key_pem, config) == is_tls_config(
            certificate_pem,
            other_key_pem,
            config,
        ),
{
}

/// With the same certificates and the same first private key, of a kind that is always usable,
/// one key file gives settings exactly if the other does, and the server signs with that key.
pub proof fn usable_first_private_keys_agree(
    certificate_pem: Seq<u8>,
    private_key_pem: Seq<u8>,
    config: Result<rustls::ServerConfig, TlsConfigError>,
    other_key_pem: Seq<u8>,
    other_config: Result<rustls::ServerConfig, TlsConfigError>,
)
    requires
        pem_pkcs8_private_keys(private_key_pem) matches Some(keys) && keys.len() > 0
            && (private_key_kind(keys[0]) is None || always_usable(keys[0])),
        pem_pkcs8_private_keys(other_key_pem) matches Some(keys) && keys.len() > 0,
        pem_pkcs8_private_keys(private_key_pem).unwrap()[0] == pem_pkcs8_private_keys(
            other_key_pem,
        ).unwrap()[0],
        is_tls_config(certificate_pem, private_key_pem, config),
        is_tls_config(certificate_pem, other_key_pem, other_config),
    ensures
        config is Ok <==> other_config is Ok,
        config matches Ok(c) ==> {
            &&& server_private_key(c) == pem_pkcs8_private_keys(private_key_pem).unwrap()[0]
            &&& server_private_key(other_config->Ok_0) == server_private_key(c)
            &&& server_cert_chain(other_config->Ok_0) == server_cert_chain(c)
        },
        config matches Err(TlsConfigError::Certificates(_)) <==> other_config matches Err(
            TlsConfigError::Certificates(_),
        ),
        config matches Err(TlsConfigError::Config(_)) <==> other_config matches Err(
            TlsConfigError::Config(_),
        ),
{
}

} // verus!
