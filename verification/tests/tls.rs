use std::sync::Arc;

use rustfs::tls::{
    alpn_protocols, directory_config, finish_single_cert, legacy_config, setup_tls_acceptor, with_server_protocols,
    CertResolver, DirectoryCerts, PrivateKey, TlsFileNames, TlsFindings,
};
use rustls::client::danger::{HandshakeSignatureValid, ServerCertVerified, ServerCertVerifier};
use rustls::pki_types::{CertificateDer, PrivateKeyDer, ServerName, UnixTime};
use rustls::server::{ClientHello, ResolvesServerCert};
use rustls::sign::CertifiedKey;
use rustls::{ClientConfig, ClientConnection, DigitallySignedStruct, ServerConfig, ServerConnection, SignatureScheme};

/// A self-signed certificate for `localhost`.
const CERT: &[u8] = &[
    0x30, 0x82, 0x01, 0x95, 0x30, 0x82, 0x01, 0x3b, 0xa0, 0x03, 0x02, 0x01, 0x02, 0x02, 0x14, 0x2d,
    0xa9, 0xb1, 0x6f, 0xb7, 0x18, 0x90, 0xf5, 0x9b, 0xb8, 0xa6, 0xdd, 0xe6, 0x56, 0xe8, 0xae, 0xc7,
    0x40, 0x95, 0x30, 0x30, 0x0a, 0x06, 0x08, 0x2a, 0x86, 0x48, 0xce, 0x3d, 0x04, 0x03, 0x02, 0x30,
    0x14, 0x31, 0x12, 0x30, 0x10, 0x06, 0x03, 0x55, 0x04, 0x03, 0x0c, 0x09, 0x6c, 0x6f, 0x63, 0x61,
    0x6c, 0x68, 0x6f, 0x73, 0x74, 0x30, 0x20, 0x17, 0x0d, 0x32, 0x36, 0x31, 0x31, 0x31, 0x35, 0x30,
    0x35, 0x32, 0x39, 0x30, 0x32, 0x5a, 0x18, 0x0f, 0x32, 0x31, 0x32, 0x36, 0x31, 0x30, 0x32, 0x32,
    0x30, 0x35, 0x32, 0x39, 0x30, 0x32, 0x5a, 0x30, 0x14, 0x31, 0x12, 0x30, 0x10, 0x06, 0x03, 0x55,
    0x04, 0x03, 0x0c, 0x09, 0x6c, 0x6f, 0x63, 0x61, 0x6c, 0x68, 0x6f, 0x73, 0x74, 0x30, 0x59, 0x30,
    0x13, 0x06, 0x07, 0x2a, 0x86, 0x48, 0xce, 0x3d, 0x02, 0x01, 0x06, 0x08, 0x2a, 0x86, 0x48, 0xce,
    0x3d, 0x03, 0x01, 0x07, 0x03, 0x42, 0x00, 0x04, 0xbc, 0x52, 0x49, 0x79, 0xa5, 0x8d, 0xb7, 0x3b,
    0xb1, 0xf1, 0x1c, 0x12, 0xb4, 0x05, 0xcf, 0xf4, 0xdd, 0x34, 0xe4, 0x05, 0x83, 0xf6, 0x10, 0x81,
    0xe9, 0xb8, 0x42, 0x60, 0x2a, 0x78, 0x31, 0x62, 0x53, 0xcb, 0x2d, 0x5f, 0xef, 0x95, 0x1e, 0xb5,
    0x23, 0x61, 0x33, 0xab, 0xb6, 0x81, 0x87, 0x65, 0x66, 0xf7, 0x1d, 0x28, 0x5b, 0xf3, 0x0f, 0x77,
    0xf4, 0xe4, 0xe2, 0x97, 0x9a, 0xeb, 0xdf, 0xc9, 0xa3, 0x69, 0x30, 0x67, 0x30, 0x1d, 0x06, 0x03,
    0x55, 0x1d, 0x0e, 0x04, 0x16, 0x04, 0x14, 0x8b, 0x4c, 0xb4, 0x74, 0x12, 0x7f, 0x78, 0xcf, 0x2b,
    0x62, 0x1e, 0x18, 0x1f, 0xc2, 0xd1, 0x1b, 0xbb, 0x8b, 0x98, 0x41, 0x30, 0x1f, 0x06, 0x03, 0x55,
    0x1d, 0x23, 0x04, 0x18, 0x30, 0x16, 0x80, 0x14, 0x8b, 0x4c, 0xb4, 0x74, 0x12, 0x7f, 0x78, 0xcf,
    0x2b, 0x62, 0x1e, 0x18, 0x1f, 0xc2, 0xd1, 0x1b, 0xbb, 0x8b, 0x98, 0x41, 0x30, 0x0f, 0x06, 0x03,
    0x55, 0x1d, 0x13, 0x01, 0x01, 0xff, 0x04, 0x05, 0x30, 0x03, 0x01, 0x01, 0xff, 0x30, 0x14, 0x06,
    0x03, 0x55, 0x1d, 0x11, 0x04, 0x0d, 0x30, 0x0b, 0x82, 0x09, 0x6c, 0x6f, 0x63, 0x61, 0x6c, 0x68,
    0x6f, 0x73, 0x74, 0x30, 0x0a, 0x06, 0x08, 0x2a, 0x86, 0x48, 0xce, 0x3d, 0x04, 0x03, 0x02, 0x03,
    0x48, 0x00, 0x30, 0x45, 0x02, 0x21, 0x00, 0xbe, 0x6c, 0x4a, 0xa1, 0x5c, 0xd9, 0x71, 0x0e, 0x3b,
    0x6f, 0x13, 0xbd, 0xf2, 0x54, 0xdb, 0x31, 0x88, 0x20, 0x29, 0xfc, 0xde, 0x19, 0xd4, 0xe6, 0x5d,
    0x33, 0xc5, 0x21, 0x46, 0x8e, 0xad, 0x1f, 0x02, 0x20, 0x38, 0x85, 0x21, 0xfa, 0x4f, 0x6c, 0x0d,
    0xb6, 0x20, 0xb8, 0x5d, 0xf7, 0xd8, 0xe8, 0x84, 0x30, 0xa0, 0x38, 0xb2, 0x2e, 0x7a, 0x59, 0xf6,
    0xd6, 0x14, 0x97, 0xff, 0x7c, 0x1b, 0x21, 0x7a, 0x5c,
];

/// Its key, in PKCS #8.
const KEY: &[u8] = &[
    0x30, 0x81, 0x87, 0x02, 0x01, 0x00, 0x30, 0x13, 0x06, 0x07, 0x2a, 0x86, 0x48, 0xce, 0x3d, 0x02,
    0x01, 0x06, 0x08, 0x2a, 0x86, 0x48, 0xce, 0x3d, 0x03, 0x01, 0x07, 0x04, 0x6d, 0x30, 0x6b, 0x02,
    0x01, 0x01, 0x04, 0x20, 0xe6, 0xd3, 0xb6, 0xe3, 0x94, 0xf4, 0x33, 0xb2, 0x84, 0xba, 0x24, 0x88,
    0x6f, 0xcc, 0x8a, 0xfb, 0x2d, 0x8e, 0xfc, 0x93, 0xc2, 0x8c, 0xf0, 0x62, 0xc8, 0xcc, 0x19, 0xeb,
    0x94, 0xe5, 0x01, 0x37, 0xa1, 0x44, 0x03, 0x42, 0x00, 0x04, 0xbc, 0x52, 0x49, 0x79, 0xa5, 0x8d,
    0xb7, 0x3b, 0xb1, 0xf1, 0x1c, 0x12, 0xb4, 0x05, 0xcf, 0xf4, 0xdd, 0x34, 0xe4, 0x05, 0x83, 0xf6,
    0x10, 0x81, 0xe9, 0xb8, 0x42, 0x60, 0x2a, 0x78, 0x31, 0x62, 0x53, 0xcb, 0x2d, 0x5f, 0xef, 0x95,
    0x1e, 0xb5, 0x23, 0x61, 0x33, 0xab, 0xb6, 0x81, 0x87, 0x65, 0x66, 0xf7, 0x1d, 0x28, 0x5b, 0xf3,
    0x0f, 0x77, 0xf4, 0xe4, 0xe2, 0x97, 0x9a, 0xeb, 0xdf, 0xc9,
];

/// Its key, in SEC 1.
const KEY_SEC1: &[u8] = &[
    0x30, 0x77, 0x02, 0x01, 0x01, 0x04, 0x20, 0xe6, 0xd3, 0xb6, 0xe3, 0x94, 0xf4, 0x33, 0xb2, 0x84,
    0xba, 0x24, 0x88, 0x6f, 0xcc, 0x8a, 0xfb, 0x2d, 0x8e, 0xfc, 0x93, 0xc2, 0x8c, 0xf0, 0x62, 0xc8,
    0xcc, 0x19, 0xeb, 0x94, 0xe5, 0x01, 0x37, 0xa0, 0x0a, 0x06, 0x08, 0x2a, 0x86, 0x48, 0xce, 0x3d,
    0x03, 0x01, 0x07, 0xa1, 0x44, 0x03, 0x42, 0x00, 0x04, 0xbc, 0x52, 0x49, 0x79, 0xa5, 0x8d, 0xb7,
    0x3b, 0xb1, 0xf1, 0x1c, 0x12, 0xb4, 0x05, 0xcf, 0xf4, 0xdd, 0x34, 0xe4, 0x05, 0x83, 0xf6, 0x10,
    0x81, 0xe9, 0xb8, 0x42, 0x60, 0x2a, 0x78, 0x31, 0x62, 0x53, 0xcb, 0x2d, 0x5f, 0xef, 0x95, 0x1e,
    0xb5, 0x23, 0x61, 0x33, 0xab, 0xb6, 0x81, 0x87, 0x65, 0x66, 0xf7, 0x1d, 0x28, 0x5b, 0xf3, 0x0f,
    0x77, 0xf4, 0xe4, 0xe2, 0x97, 0x9a, 0xeb, 0xdf, 0xc9,
];

/// The key of another certificate, in PKCS #8.
const OTHER_KEY: &[u8] = &[
    0x30, 0x81, 0x87, 0x02, 0x01, 0x00, 0x30, 0x13, 0x06, 0x07, 0x2a, 0x86, 0x48, 0xce, 0x3d, 0x02,
    0x01, 0x06, 0x08, 0x2a, 0x86, 0x48, 0xce, 0x3d, 0x03, 0x01, 0x07, 0x04, 0x6d, 0x30, 0x6b, 0x02,
    0x01, 0x01, 0x04, 0x20, 0xad, 0x30, 0x3d, 0x73, 0x83, 0x5b, 0xd3, 0x8c, 0xae, 0x2d, 0x22, 0x56,
    0xe8, 0xa1, 0x4b, 0xdc, 0x67, 0xc3, 0x6c, 0xf8, 0x4a, 0x38, 0x6f, 0x69, 0x21, 0x3a, 0x4c, 0x61,
    0xee, 0x81, 0xfd, 0x9a, 0xa1, 0x44, 0x03, 0x42, 0x00, 0x04, 0x30, 0x2a, 0x84, 0x25, 0x47, 0xa2,
    0xdc, 0xf2, 0xe2, 0x5b, 0x1f, 0x39, 0x60, 0x55, 0x9b, 0x0b, 0xc4, 0x02, 0x84, 0xba, 0x4b, 0xbc,
    0x20, 0x19, 0x1a, 0x29, 0x2f, 0xba, 0x33, 0x3b, 0x9b, 0x66, 0x3a, 0x9d, 0x17, 0x0e, 0xb2, 0x1a,
    0x28, 0x46, 0x80, 0x5d, 0x6b, 0xd2, 0xb0, 0xb6, 0xf2, 0xeb, 0xf6, 0xf9, 0x24, 0xce, 0xd7, 0x77,
    0x2d, 0x38, 0xd4, 0x58, 0xbf, 0x33, 0x78, 0xf2, 0xa7, 0x3d,
];

fn names() -> TlsFileNames {
    TlsFileNames {
        key: "rustfs_key.pem".to_string(),
        cert: "rustfs_cert.pem".to_string(),
    }
}

fn decide(tls_path: &str, findings: TlsFindings) -> String {
    format!("{:?}", setup_tls_acceptor(tls_path, &names(), &findings))
}

fn found(certs: DirectoryCerts) -> TlsFindings {
    TlsFindings {
        directory_exists: Some(true),
        directory_certs: Some(certs),
        ..TlsFindings::none()
    }
}

fn protocols() -> Vec<Vec<u8>> {
    vec![b"h2".to_vec(), b"http/1.1".to_vec(), b"http/1.0".to_vec()]
}

#[test]
fn without_a_directory_http_is_served() {
    assert_eq!(decide("", TlsFindings::none()), "ServeHttp");
    assert_eq!(decide("", found(DirectoryCerts::Loaded(2))), "ServeHttp");
    assert_eq!(decide("/certs", TlsFindings::none()), "ProbeDirectory");
    let mut findings = TlsFindings::none();
    findings.directory_exists = Some(false);
    assert_eq!(decide("/certs", findings), "ServeHttp");
}

#[test]
fn certificates_of_the_directory_come_first() {
    let mut findings = TlsFindings::none();
    findings.directory_exists = Some(true);
    assert_eq!(decide("/certs", findings), "LoadDirectory");
    let mut findings = found(DirectoryCerts::Loaded(1));
    assert_eq!(decide("/certs", findings), "InstallProvider");
    findings.provider_installed = Some(true);
    assert_eq!(decide("/certs", findings), "BuildResolver");
    findings.legacy_pair_exists = Some(true);
    assert_eq!(decide("/certs", findings), "BuildResolver");
    findings.resolver_built = Some(true);
    assert_eq!(decide("/certs", findings), "ServeDirectory");
    findings.resolver_built = Some(false);
    assert_eq!(decide("/certs", findings), "Fail(Resolver)");
}

#[test]
fn legacy_pair_comes_second() {
    for certs in [DirectoryCerts::Loaded(0), DirectoryCerts::Unreadable] {
        let mut findings = found(certs);
        assert_eq!(
            decide("/certs", findings),
            "ProbeLegacyPair { key_path: \"/certs/rustfs_key.pem\", cert_path: \"/certs/rustfs_cert.pem\" }"
        );
        findings.legacy_pair_exists = Some(true);
        assert_eq!(decide("/certs", findings), "InstallProvider");
        findings.provider_installed = Some(true);
        assert_eq!(
            decide("/certs", findings),
            "LoadLegacyCert { cert_path: \"/certs/rustfs_cert.pem\" }"
        );
        findings.legacy_cert_loaded = Some(true);
        assert_eq!(
            decide("/certs", findings),
            "LoadLegacyKey { key_path: \"/certs/rustfs_key.pem\" }"
        );
        findings.legacy_key_loaded = Some(true);
        assert_eq!(decide("/certs", findings), "ServeLegacyPair");
    }
}

#[test]
fn legacy_pair_that_cannot_be_loaded_is_an_error() {
    let mut findings = found(DirectoryCerts::Unreadable);
    findings.legacy_pair_exists = Some(true);
    findings.provider_installed = Some(true);
    findings.legacy_cert_loaded = Some(false);
    assert_eq!(decide("/certs", findings), "Fail(LegacyCert)");
    findings.legacy_cert_loaded = Some(true);
    findings.legacy_key_loaded = Some(false);
    assert_eq!(decide("/certs", findings), "Fail(LegacyKey)");
}

#[test]
fn directory_without_certificates_means_http() {
    let mut findings = found(DirectoryCerts::Loaded(0));
    findings.legacy_pair_exists = Some(false);
    assert_eq!(decide("/certs", findings), "ServeHttp");
    findings.legacy_cert_loaded = Some(true);
    findings.legacy_key_loaded = Some(true);
    assert_eq!(decide("/certs", findings), "ServeHttp");
}

#[test]
fn server_offers_http_2_first() {
    assert_eq!(alpn_protocols(), protocols());
}

#[test]
fn certificate_and_key_make_a_configuration() {
    for key in [PrivateKey::Pkcs8(KEY.to_vec()), PrivateKey::Sec1(KEY_SEC1.to_vec())] {
        let config = legacy_config(vec![CERT.to_vec()], key).unwrap();
        assert_eq!(config.alpn_protocols, protocols());
    }
}

#[test]
fn protocols_replace_those_of_a_configuration() {
    let mut config = legacy_config(vec![CERT.to_vec()], PrivateKey::Pkcs8(KEY.to_vec())).unwrap();
    config.alpn_protocols = vec![b"spdy".to_vec()];
    assert_eq!(with_server_protocols(config).alpn_protocols, protocols());
}

#[test]
fn key_of_another_certificate_is_refused() {
    let error = legacy_config(vec![CERT.to_vec()], PrivateKey::Pkcs8(OTHER_KEY.to_vec())).unwrap_err();
    let expected = rustls::ServerConfig::builder()
        .with_no_client_auth()
        .with_single_cert(
            vec![CertificateDer::from(CERT.to_vec())],
            PrivateKeyDer::Pkcs8(OTHER_KEY.to_vec().into()),
        )
        .unwrap_err();
    assert_eq!(error.message, expected.to_string());
}

#[test]
fn bytes_that_are_no_key_are_refused() {
    for key in [
        PrivateKey::Pkcs1(vec![1, 2, 3]),
        PrivateKey::Pkcs8(Vec::new()),
        PrivateKey::Sec1(vec![48, 0]),
    ] {
        assert!(legacy_config(vec![CERT.to_vec()], key).is_err());
    }
}

#[test]
fn error_of_the_configuration_is_kept() {
    let error = finish_single_cert(Err("no certificate".to_string())).unwrap_err();
    assert_eq!(error.message, "no certificate");
    let again = finish_single_cert(Err("no certificate".to_string())).unwrap_err();
    assert_eq!(again.message, error.message);
}

#[test]
fn provider_that_is_installed_already_changes_nothing() {
    let answers = [None, Some(false), Some(true)];
    for certs in [DirectoryCerts::Loaded(3), DirectoryCerts::Loaded(0), DirectoryCerts::Unreadable] {
        for resolver_built in answers {
            for legacy_pair_exists in answers {
                for legacy_cert_loaded in answers {
                    for legacy_key_loaded in answers {
                        let mut findings = found(certs);
                        findings.resolver_built = resolver_built;
                        findings.legacy_pair_exists = legacy_pair_exists;
                        findings.legacy_cert_loaded = legacy_cert_loaded;
                        findings.legacy_key_loaded = legacy_key_loaded;
                        findings.provider_installed = Some(true);
                        let first = decide("/certs", findings);
                        findings.provider_installed = Some(false);
                        assert_eq!(decide("/certs", findings), first);
                    }
                }
            }
        }
    }
}

/// A client that looks at no certificate, and has none.
#[derive(Debug)]
struct AcceptAny;

impl ServerCertVerifier for AcceptAny {
    fn verify_server_cert(
        &self,
        _: &CertificateDer<'_>,
        _: &[CertificateDer<'_>],
        _: &ServerName<'_>,
        _: &[u8],
        _: UnixTime,
    ) -> Result<ServerCertVerified, rustls::Error> {
        Ok(ServerCertVerified::assertion())
    }

    fn verify_tls12_signature(
        &self,
        _: &[u8],
        _: &CertificateDer<'_>,
        _: &DigitallySignedStruct,
    ) -> Result<HandshakeSignatureValid, rustls::Error> {
        Ok(HandshakeSignatureValid::assertion())
    }

    fn verify_tls13_signature(
        &self,
        _: &[u8],
        _: &CertificateDer<'_>,
        _: &DigitallySignedStruct,
    ) -> Result<HandshakeSignatureValid, rustls::Error> {
        Ok(HandshakeSignatureValid::assertion())
    }

    fn supported_verify_schemes(&self) -> Vec<SignatureScheme> {
        vec![SignatureScheme::ECDSA_NISTP256_SHA256]
    }
}

/// A client that notes whether it is asked for a certificate.
#[derive(Debug)]
struct Asked(std::sync::atomic::AtomicBool);

impl rustls::client::ResolvesClientCert for Asked {
    fn resolve(&self, _: &[&[u8]], _: &[SignatureScheme]) -> Option<Arc<CertifiedKey>> {
        self.0.store(true, std::sync::atomic::Ordering::SeqCst);
        None
    }

    fn has_certs(&self) -> bool {
        true
    }
}

/// The certificate and the protocol that a client gets, and whether it is asked
/// for a certificate of its own.
fn shake_hands(config: ServerConfig, offered: &[&[u8]]) -> (Vec<u8>, Option<Vec<u8>>, bool) {
    let asked = Arc::new(Asked(std::sync::atomic::AtomicBool::new(false)));
    let mut client_config = ClientConfig::builder()
        .dangerous()
        .with_custom_certificate_verifier(Arc::new(AcceptAny))
        .with_client_cert_resolver(asked.clone());
    client_config.alpn_protocols = offered.iter().map(|name| name.to_vec()).collect();
    let name = ServerName::try_from("localhost").unwrap();
    let mut client = ClientConnection::new(Arc::new(client_config), name).unwrap();
    let mut server = ServerConnection::new(Arc::new(config)).unwrap();
    while client.is_handshaking() || server.is_handshaking() {
        let mut wire = Vec::new();
        while client.wants_write() {
            client.write_tls(&mut wire).unwrap();
        }
        let mut rest = wire.as_slice();
        while !rest.is_empty() {
            server.read_tls(&mut rest).unwrap();
            server.process_new_packets().unwrap();
        }
        let mut wire = Vec::new();
        while server.wants_write() {
            server.write_tls(&mut wire).unwrap();
        }
        let mut rest = wire.as_slice();
        while !rest.is_empty() {
            client.read_tls(&mut rest).unwrap();
            client.process_new_packets().unwrap();
        }
    }
    (
        client.peer_certificates().unwrap()[0].to_vec(),
        client.alpn_protocol().map(|name| name.to_vec()),
        asked.0.load(std::sync::atomic::Ordering::SeqCst),
    )
}

/// A choice of which the one certificate is all.
#[derive(Debug)]
struct Only(Arc<CertifiedKey>);

impl ResolvesServerCert for Only {
    fn resolve(&self, _: ClientHello<'_>) -> Option<Arc<CertifiedKey>> {
        Some(self.0.clone())
    }
}

fn only() -> CertResolver {
    let chain = vec![CertificateDer::from(CERT.to_vec())];
    let key = PrivateKeyDer::Pkcs8(KEY.to_vec().into());
    let provider = rustls::crypto::aws_lc_rs::default_provider();
    CertResolver {
        inner: Arc::new(Only(Arc::new(CertifiedKey::from_der(chain, key, &provider).unwrap()))),
    }
}

#[test]
fn legacy_certificate_is_served_without_asking_for_one() {
    for (offered, agreed) in [
        (vec![b"http/1.1".as_slice(), b"h2".as_slice()], Some(b"h2".to_vec())),
        (vec![b"http/1.0".as_slice()], Some(b"http/1.0".to_vec())),
        (Vec::new(), None),
    ] {
        let config = legacy_config(vec![CERT.to_vec()], PrivateKey::Pkcs8(KEY.to_vec())).unwrap();
        assert_eq!(shake_hands(config, &offered), (CERT.to_vec(), agreed, false));
    }
}

#[test]
fn directory_certificate_is_served_without_asking_for_one() {
    let config = directory_config(only());
    assert_eq!(config.alpn_protocols, protocols());
    assert_eq!(
        shake_hands(config, &[b"http/1.1"]),
        (CERT.to_vec(), Some(b"http/1.1".to_vec()), false)
    );
}

#[test]
fn second_configuration_is_like_the_first() {
    let make = || legacy_config(vec![CERT.to_vec()], PrivateKey::Sec1(KEY_SEC1.to_vec())).unwrap();
    assert_eq!(make().alpn_protocols, make().alpn_protocols);
    assert_eq!(shake_hands(make(), &[b"h2"]), shake_hands(make(), &[b"h2"]));
    let refuse = || legacy_config(Vec::new(), PrivateKey::Pkcs8(KEY.to_vec())).unwrap_err().message;
    assert_eq!(refuse(), refuse());
}
