//! Whether connections are encrypted, and with which certificates.
use std::sync::Arc;
use vstd::prelude::*;

verus! {

/// The names of the two files of the legacy layout, which knows a single
/// certificate.
#[derive(Debug)]
pub struct TlsFileNames {
    pub key: String,
    pub cert: String,
}

/// What came of loading every certificate of the directory.
#[derive(Clone, Copy, Debug, PartialEq, Eq)]
pub enum DirectoryCerts {
    /// They could not be loaded.
    Unreadable,
    /// So many certificates, each with its key.
    Loaded(usize),
}

/// What is known so far of the files.
#[derive(Clone, Copy, Debug, PartialEq, Eq)]
pub struct TlsFindings {
    /// Whether the directory exists.
    pub directory_exists: Option<bool>,
    /// What loading its certificates came to.
    pub directory_certs: Option<DirectoryCerts>,
    /// Whether a cryptography provider could be installed for the process: it
    /// cannot where there is one already.
    pub provider_installed: Option<bool>,
    /// Whether the choice among its certificates could be set up.
    pub resolver_built: Option<bool>,
    /// Whether both files of the legacy layout exist.
    pub legacy_pair_exists: Option<bool>,
    /// Whether the certificate of the legacy layout could be loaded.
    pub legacy_cert_loaded: Option<bool>,
    /// Whether the key of the legacy layout could be loaded.
    pub legacy_key_loaded: Option<bool>,
}

/// What could not be done though there are certificates.
#[derive(Clone, Copy, Debug, PartialEq, Eq)]
pub enum TlsFault {
    /// Setting up the choice among the certificates of the directory.
    Resolver,
    /// Loading the certificate of the legacy layout.
    LegacyCert,
    /// Loading the key of the legacy layout.
    LegacyKey,
}

/// What to do next.
#[derive(Debug)]
pub enum TlsAction {
    /// Look whether the directory exists.
    ProbeDirectory,
    /// Load every certificate of the directory.
    LoadDirectory,
    /// Install a cryptography provider for the process.
    InstallProvider,
    /// Set up the choice among the certificates of the directory.
    BuildResolver,
    /// Look whether both files of the legacy layout exist.
    ProbeLegacyPair { key_path: String, cert_path: String },
    /// Load the certificate of the legacy layout.
    LoadLegacyCert { cert_path: String },
    /// Load the key of the legacy layout.
    LoadLegacyKey { key_path: String },
    /// Serve plain HTTP.
    ServeHttp,
    /// Serve HTTPS with the certificates of the directory.
    ServeDirectory,
    /// Serve HTTPS with the one certificate of the legacy layout.
    ServeLegacyPair,
    /// Do not start: give up with the error of what could not be done.
    Fail(TlsFault),
}

/// What to do next, as a value.
pub enum TlsActionView {
    ProbeDirectory,
    LoadDirectory,
    InstallProvider,
    BuildResolver,
    ProbeLegacyPair { key_path: Seq<char>, cert_path: Seq<char> },
    LoadLegacyCert { cert_path: Seq<char> },
    LoadLegacyKey { key_path: Seq<char> },
    ServeHttp,
    ServeDirectory,
    ServeLegacyPair,
    Fail(TlsFault),
}

impl View for TlsAction {
    type V = TlsActionView;

    open spec fn view(&self) -> TlsActionView {
        match self {
            TlsAction::ProbeDirectory => TlsActionView::ProbeDirectory,
            TlsAction::LoadDirectory => TlsActionView::LoadDirectory,
            TlsAction::InstallProvider => TlsActionView::InstallProvider,
            TlsAction::ProbeLegacyPair { key_path, cert_path } => TlsActionView::ProbeLegacyPair {
                key_path: key_path@,
                cert_path: cert_path@,
            },
            TlsAction::BuildResolver => TlsActionView::BuildResolver,
            TlsAction::LoadLegacyCert { cert_path } => TlsActionView::LoadLegacyCert {
                cert_path: cert_path@,
            },
            TlsAction::LoadLegacyKey { key_path } => TlsActionView::LoadLegacyKey {
                key_path: key_path@,
            },
            TlsAction::ServeHttp => TlsActionView::ServeHttp,
            TlsAction::ServeDirectory => TlsActionView::ServeDirectory,
            TlsAction::ServeLegacyPair => TlsActionView::ServeLegacyPair,
            TlsAction::Fail(fault) => TlsActionView::Fail(*fault),
        }
    }
}

impl TlsFindings {
    /// Nothing is known yet.
    pub open spec fn spec_none() -> TlsFindings {
        TlsFindings {
            directory_exists: None,
            directory_certs: None,
            provider_installed: None,
            resolver_built: None,
            legacy_pair_exists: None,
            legacy_cert_loaded: None,
            legacy_key_loaded: None,
        }
    }

    /// Whether what is known here is known there too.
    pub open spec fn is_part_of(self, other: TlsFindings) -> bool {
        &&& self.directory_exists is Some ==> other.directory_exists == self.directory_exists
        &&& self.directory_certs is Some ==> other.directory_certs == self.directory_certs
        &&& self.provider_installed is Some ==> other.provider_installed == self.provider_installed
        &&& self.resolver_built is Some ==> other.resolver_built == self.resolver_built
        &&& self.legacy_pair_exists is Some ==> other.legacy_pair_exists == self.legacy_pair_exists
        &&& self.legacy_cert_loaded is Some ==> other.legacy_cert_loaded == self.legacy_cert_loaded
        &&& self.legacy_key_loaded is Some ==> other.legacy_key_loaded == self.legacy_key_loaded
    }

    /// Whether the same is known there, but for whether a cryptography provider had
    /// been installed before.
    pub open spec fn is_same_but_for_provider(self, other: TlsFindings) -> bool {
        &&& self.provider_installed is Some <==> other.provider_installed is Some
        &&& self == TlsFindings { provider_installed: self.provider_installed, ..other }
    }

    /// Whether nothing is left to find out.
    pub open spec fn is_complete(self) -> bool {
        &&& self.directory_exists is Some
        &&& self.directory_certs is Some
        &&& self.provider_installed is Some
        &&& self.resolver_built is Some
        &&& self.legacy_pair_exists is Some
        &&& self.legacy_cert_loaded is Some
        &&& self.legacy_key_loaded is Some
    }

    /// Nothing is known yet.
    pub fn none() -> (r: TlsFindings)
        ensures
            r == TlsFindings::spec_none(),
    {
        TlsFindings {
            directory_exists: None,
            directory_certs: None,
            provider_installed: None,
            resolver_built: None,
            legacy_pair_exists: None,
            legacy_cert_loaded: None,
            legacy_key_loaded: None,
        }
    }
}

impl TlsActionView {
    /// Whether the question is settled.
    pub open spec fn is_final(self) -> bool {
        self is ServeHttp || self is ServeDirectory || self is ServeLegacyPair || self is Fail
    }
}

/// The path of a file in a directory.
pub open spec fn path_in(directory: Seq<char>, name: Seq<char>) -> Seq<char> {
    directory + "/"@ + name
}

/// Whether certificates could be loaded from the directory.
pub open spec fn directory_holds_certs(findings: TlsFindings) -> bool {
    findings.directory_certs matches Some(DirectoryCerts::Loaded(count)) && count > 0
}

/// What follows where the directory holds certificates.
pub open spec fn directory_action(findings: TlsFindings) -> TlsActionView {
    match (findings.provider_installed, findings.resolver_built) {
        (None, _) => TlsActionView::InstallProvider,
        (_, None) => TlsActionView::BuildResolver,
        (_, Some(true)) => TlsActionView::ServeDirectory,
        (_, Some(false)) => TlsActionView::Fail(TlsFault::Resolver),
    }
}

/// What follows where only the legacy layout is left.
pub open spec fn legacy_action(
    key_path: Seq<char>,
    cert_path: Seq<char>,
    findings: TlsFindings,
) -> TlsActionView {
    match (
        findings.legacy_pair_exists,
        findings.provider_installed,
        findings.legacy_cert_loaded,
        findings.legacy_key_loaded,
    ) {
        (None, _, _, _) => TlsActionView::ProbeLegacyPair { key_path, cert_path },
        (Some(false), _, _, _) => TlsActionView::ServeHttp,
        (_, None, _, _) => TlsActionView::InstallProvider,
        (_, _, None, _) => TlsActionView::LoadLegacyCert { cert_path },
        (_, _, Some(false), _) => TlsActionView::Fail(TlsFault::LegacyCert),
        (_, _, _, None) => TlsActionView::LoadLegacyKey { key_path },
        (_, _, _, Some(false)) => TlsActionView::Fail(TlsFault::LegacyKey),
        _ => TlsActionView::ServeLegacyPair,
    }
}

/// What follows from what is known. The certificates of the directory come
/// first, the legacy layout second; without either the server speaks plain HTTP.
pub open spec fn tls_action(
    tls_path: Seq<char>,
    names: TlsFileNames,
    findings: TlsFindings,
) -> TlsActionView {
    if tls_path.len() == 0 || findings.directory_exists == Some(false) {
        TlsActionView::ServeHttp
    } else if findings.directory_exists is None {
        TlsActionView::ProbeDirectory
    } else if findings.directory_certs is None {
        TlsActionView::LoadDirectory
    } else if directory_holds_certs(findings) {
        directory_action(findings)
    } else {
        legacy_action(path_in(tls_path, names.key@), path_in(tls_path, names.cert@), findings)
    }
}

/// The path of a file in a directory.
fn join_path(directory: &str, name: &str) -> (r: String)
    ensures
        r@ == path_in(directory@, name@),
{
    let mut s = directory.to_owned();
    s.append("/");
    s.append(name);
    s
}

/// Decides how connections are served, as far as what is known of the files
/// below `tls_path` allows, or what is to be found out next.
pub fn setup_tls_acceptor(tls_path: &str, names: &TlsFileNames, findings: &TlsFindings) -> (r:
    TlsAction)
    ensures
        r@ == tls_action(tls_path@, *names, *findings),
{
    if tls_path.is_empty() {
        return TlsAction::ServeHttp;
    }
    match findings.directory_exists {
        None => return TlsAction::ProbeDirectory,
        Some(false) => return TlsAction::ServeHttp,
        Some(true) => {},
    }
    match findings.directory_certs {
        None => return TlsAction::LoadDirectory,
        Some(DirectoryCerts::Loaded(count)) => if count > 0 {
            return match (findings.provider_installed, findings.resolver_built) {
                (None, _) => TlsAction::InstallProvider,
                (_, None) => TlsAction::BuildResolver,
                (_, Some(true)) => TlsAction::ServeDirectory,
                (_, Some(false)) => TlsAction::Fail(TlsFault::Resolver),
            };
        },
        Some(DirectoryCerts::Unreadable) => {},
    }
    let key_path = join_path(tls_path, names.key.as_str());
    let cert_path = join_path(tls_path, names.cert.as_str());
    match findings.legacy_pair_exists {
        None => return TlsAction::ProbeLegacyPair { key_path, cert_path },
        Some(false) => return TlsAction::ServeHttp,
        Some(true) => {},
    }
    if findings.provider_installed.is_none() {
        return TlsAction::InstallProvider;
    }
    match findings.legacy_cert_loaded {
        None => return TlsAction::LoadLegacyCert { cert_path },
        Some(false) => return TlsAction::Fail(TlsFault::LegacyCert),
        Some(true) => {},
    }
    match findings.legacy_key_loaded {
        None => TlsAction::LoadLegacyKey { key_path },
        Some(false) => TlsAction::Fail(TlsFault::LegacyKey),
        Some(true) => TlsAction::ServeLegacyPair,
    }
}

/// What is still to be found out or done was not yet, so that every answer
/// brings the decision nearer and, with all of them, it is settled.
pub proof fn law_nothing_is_asked_twice(
    tls_path: Seq<char>,
    names: TlsFileNames,
    findings: TlsFindings,
)
    ensures
        match tls_action(tls_path, names, findings) {
            TlsActionView::ProbeDirectory => findings.directory_exists is None,
            TlsActionView::LoadDirectory => findings.directory_certs is None,
            TlsActionView::InstallProvider => findings.provider_installed is None,
            TlsActionView::BuildResolver => findings.resolver_built is None,
            TlsActionView::ProbeLegacyPair { .. } => findings.legacy_pair_exists is None,
            TlsActionView::LoadLegacyCert { .. } => findings.legacy_cert_loaded is None,
            TlsActionView::LoadLegacyKey { .. } => findings.legacy_key_loaded is None,
            _ => tls_action(tls_path, names, findings).is_final(),
        },
        findings.is_complete() ==> tls_action(tls_path, names, findings).is_final(),
{
}

/// A decision stands, whatever else becomes known.
pub proof fn law_decision_stands(
    tls_path: Seq<char>,
    names: TlsFileNames,
    findings: TlsFindings,
    more: TlsFindings,
)
    requires
        findings.is_part_of(more),
        tls_action(tls_path, names, findings).is_final(),
    ensures
        tls_action(tls_path, names, more) == tls_action(tls_path, names, findings),
{
}

/// The server speaks plain HTTP just where no directory was configured, it does
/// not exist, or it holds certificates in neither of the two layouts: where there
/// are certificates that cannot be used, it does not start.
pub proof fn law_plain_http_just_without_certs(
    tls_path: Seq<char>,
    names: TlsFileNames,
    findings: TlsFindings,
)
    requires
        tls_action(tls_path, names, findings).is_final(),
    ensures
        tls_action(tls_path, names, findings) is ServeHttp <==> {
            ||| tls_path.len() == 0
            ||| findings.directory_exists == Some(false)
            ||| !directory_holds_certs(findings) && findings.legacy_pair_exists == Some(false)
        },
{
}

/// Set up again with the same files, the server decides as it did before: that a
/// cryptography provider was installed already changes nothing, and never keeps
/// it from starting.
pub proof fn law_installed_provider_changes_nothing(
    tls_path: Seq<char>,
    names: TlsFileNames,
    first: TlsFindings,
    second: TlsFindings,
)
    requires
        first.is_same_but_for_provider(second),
    ensures
        tls_action(tls_path, names, second) == tls_action(tls_path, names, first),
{
}

/// The configuration of the TLS side of a server, `rustls::ServerConfig`.
#[verifier::external_type_specification]
#[verifier::external_body]
pub struct ExServerConfig(rustls::ServerConfig);

/// A private key, in DER.
pub enum PrivateKey {
    Pkcs1(Vec<u8>),
    Pkcs8(Vec<u8>),
    Sec1(Vec<u8>),
}

/// A private key as a value.
pub enum PrivateKeyView {
    Pkcs1(Seq<u8>),
    Pkcs8(Seq<u8>),
    Sec1(Seq<u8>),
}

impl View for PrivateKey {
    type V = PrivateKeyView;

    open spec fn view(&self) -> PrivateKeyView {
        match self {
            PrivateKey::Pkcs1(der) => PrivateKeyView::Pkcs1(der@),
            PrivateKey::Pkcs8(der) => PrivateKeyView::Pkcs8(der@),
            PrivateKey::Sec1(der) => PrivateKeyView::Sec1(der@),
        }
    }
}

/// The bytes of each of some byte strings.
pub open spec fn bytes_of(strings: Seq<Vec<u8>>) -> Seq<Seq<u8>> {
    strings.map_values(|s: Vec<u8>| s@)
}

/// The protocols that a configuration offers by ALPN, in order of preference.
pub uninterp spec fn alpn_of(config: rustls::ServerConfig) -> Seq<Seq<u8>>;

/// The certificate chain and the private key that a configuration was made with.
pub uninterp spec fn identity_of(config: rustls::ServerConfig) -> (Seq<Seq<u8>>, PrivateKeyView);

/// Whether a configuration has the server ask its clients for a certificate.
pub uninterp spec fn asks_client_cert(config: rustls::ServerConfig) -> bool;

/// The choice among several certificates: an `Arc` of a
/// `rustls::server::ResolvesServerCert`, which the program implements.
#[verifier::external_body]
pub struct CertResolver {
    pub inner: Arc<dyn rustls::server::ResolvesServerCert>,
}

/// The choice among certificates that a configuration was made with.
pub uninterp spec fn resolver_of(config: rustls::ServerConfig) -> CertResolver;

/// Calls `with_single_cert` of the `rustls::ServerConfig` builder, without client
/// authentication, once a cryptography provider is installed for the process. A
/// configuration that comes back was made with the chain and the key, asks clients
/// for no certificate and offers no protocol yet. On which chains and keys one comes back is left unsaid: the
/// provider of the process decides, which may be another than the one here. The
/// error is the text of the `rustls::Error`.
#[verifier::external_body]
fn single_cert_config(chain: Vec<Vec<u8>>, key: PrivateKey) -> (r: Result<
    rustls::ServerConfig,
    String,
>)
    ensures
        r matches Ok(config) ==> {
            &&& identity_of(config) == (bytes_of(chain@), key@)
            &&& !asks_client_cert(config)
            &&& alpn_of(config).len() == 0
        },
{
    let _ = rustls::crypto::aws_lc_rs::default_provider().install_default();
    let chain = chain.into_iter().map(rustls::pki_types::CertificateDer::from).collect();
    let key = match key {
        PrivateKey::Pkcs1(der) => rustls::pki_types::PrivateKeyDer::Pkcs1(der.into()),
        PrivateKey::Pkcs8(der) => rustls::pki_types::PrivateKeyDer::Pkcs8(der.into()),
        PrivateKey::Sec1(der) => rustls::pki_types::PrivateKeyDer::Sec1(der.into()),
    };
    let builder = rustls::ServerConfig::builder().with_no_client_auth();
    builder.with_single_cert(chain, key).map_err(|error| error.to_string())
}

/// Calls `with_cert_resolver` of the `rustls::ServerConfig` builder, without
/// client authentication, once a cryptography provider is installed for the
/// process. The configuration was made with the resolver, asks clients for no
/// certificate and offers no protocol yet.
#[verifier::external_body]
fn resolver_config(resolver: CertResolver) -> (r: rustls::ServerConfig)
    ensures
        resolver_of(r) == resolver,
        !asks_client_cert(r),
        alpn_of(r).len() == 0,
{
    let _ = rustls::crypto::aws_lc_rs::default_provider().install_default();
    rustls::ServerConfig::builder().with_no_client_auth().with_cert_resolver(resolver.inner)
}

/// Writes the field `alpn_protocols` of a `rustls::ServerConfig`: the
/// configuration then offers just these protocols, and is otherwise as it was.
#[verifier::external_body]
fn set_alpn(config: &mut rustls::ServerConfig, protocols: Vec<Vec<u8>>)
    ensures
        alpn_of(*final(config)) == bytes_of(protocols@),
        identity_of(*final(config)) == identity_of(*old(config)),
        asks_client_cert(*final(config)) == asks_client_cert(*old(config)),
        resolver_of(*final(config)) == resolver_of(*old(config)),
{
    config.alpn_protocols = protocols;
}

/// The protocols of the server: HTTP/2, HTTP/1.1 and HTTP/1.0.
pub open spec fn server_protocols() -> Seq<Seq<u8>> {
    seq![
        vstd::utf8::encode_utf8("h2"@),
        vstd::utf8::encode_utf8("http/1.1"@),
        vstd::utf8::encode_utf8("http/1.0"@),
    ]
}

/// Why HTTPS cannot be served though there are certificates.
#[derive(Debug)]
pub struct CertsError {
    pub message: String,
}

/// The protocols of the server, in order of preference.
pub fn alpn_protocols() -> (r: Vec<Vec<u8>>)
    ensures
        bytes_of(r@) == server_protocols(),
{
    let mut r: Vec<Vec<u8>> = Vec::new();
    r.push("h2".as_bytes_vec());
    r.push("http/1.1".as_bytes_vec());
    r.push("http/1.0".as_bytes_vec());
    assert(bytes_of(r@) == server_protocols());
    r
}

/// Has a configuration offer the protocols of the server.
pub fn with_server_protocols(config: rustls::ServerConfig) -> (r: rustls::ServerConfig)
    ensures
        alpn_of(r) == server_protocols(),
        identity_of(r) == identity_of(config),
        asks_client_cert(r) == asks_client_cert(config),
        resolver_of(r) == resolver_of(config),
{
    let mut config = config;
    set_alpn(&mut config, alpn_protocols());
    config
}

/// Whether a configuration serves a certificate chain with its key: it offers the
/// protocols of the server, and asks clients for no certificate.
pub open spec fn serves_single_cert(
    config: rustls::ServerConfig,
    chain: Seq<Seq<u8>>,
    key: PrivateKeyView,
) -> bool {
    &&& identity_of(config) == (chain, key)
    &&& !asks_client_cert(config)
    &&& alpn_of(config) == server_protocols()
}

/// Whether a configuration serves the certificates that a resolver chooses: it
/// offers the protocols of the server, and asks clients for no certificate.
pub open spec fn serves_resolver(config: rustls::ServerConfig, resolver: CertResolver) -> bool {
    &&& resolver_of(config) == resolver
    &&& !asks_client_cert(config)
    &&& alpn_of(config) == server_protocols()
}

/// Whether two configurations were made with the same, ask clients for a
/// certificate alike and offer the same protocols.
pub open spec fn configs_agree(first: rustls::ServerConfig, second: rustls::ServerConfig) -> bool {
    &&& identity_of(first) == identity_of(second)
    &&& resolver_of(first) == resolver_of(second)
    &&& asks_client_cert(first) == asks_client_cert(second)
    &&& alpn_of(first) == alpn_of(second)
}

/// Whether two attempts to make a configuration came to the same: configurations
/// that agree, or errors of one text.
pub open spec fn made_alike(
    first: Result<rustls::ServerConfig, String>,
    second: Result<rustls::ServerConfig, String>,
) -> bool {
    match (first, second) {
        (Ok(a), Ok(b)) => configs_agree(a, b),
        (Err(a), Err(b)) => a@ == b@,
        _ => false,
    }
}

/// Whether HTTPS was set up alike: with configurations that agree, or not at all
/// for errors of one text.
pub open spec fn come_out_alike(
    first: Result<rustls::ServerConfig, CertsError>,
    second: Result<rustls::ServerConfig, CertsError>,
) -> bool {
    match (first, second) {
        (Ok(a), Ok(b)) => configs_agree(a, b),
        (Err(a), Err(b)) => a.message@ == b.message@,
        _ => false,
    }
}

/// What an attempt to make a configuration for a single certificate leads to: the
/// configuration with the protocols of the server, or the error.
pub open spec fn finishes(
    made: Result<rustls::ServerConfig, String>,
    r: Result<rustls::ServerConfig, CertsError>,
) -> bool {
    match made {
        Ok(config) => {
            &&& r matches Ok(done)
            &&& alpn_of(done) == server_protocols()
            &&& identity_of(done) == identity_of(config)
            &&& asks_client_cert(done) == asks_client_cert(config)
            &&& resolver_of(done) == resolver_of(config)
        },
        Err(text) => r matches Err(error) && error.message == text,
    }
}

/// Completes the configuration for a single certificate, where it could be made.
pub fn finish_single_cert(made: Result<rustls::ServerConfig, String>) -> (r: Result<
    rustls::ServerConfig,
    CertsError,
>)
    ensures
        finishes(made, r),
{
    match made {
        Ok(config) => Ok(with_server_protocols(config)),
        Err(text) => Err(CertsError { message: text }),
    }
}

/// The configuration that serves the one certificate of the legacy layout.
pub fn legacy_config(chain: Vec<Vec<u8>>, key: PrivateKey) -> (r: Result<
    rustls::ServerConfig,
    CertsError,
>)
    ensures
        r matches Ok(config) ==> serves_single_cert(config, bytes_of(chain@), key@),
{
    finish_single_cert(single_cert_config(chain, key))
}

/// The configuration that serves the certificates of the directory.
pub fn directory_config(resolver: CertResolver) -> (r: rustls::ServerConfig)
    ensures
        serves_resolver(r, resolver),
{
    with_server_protocols(resolver_config(resolver))
}

/// TLS that is set up again with the same files comes out as before: the decision
/// is the same, whether or not a cryptography provider had been installed, and
/// where the two attempts to make a configuration came to the same, HTTPS is
/// served with configurations that agree, or refused with one text.
pub proof fn law_repeated_setup_comes_out_alike(
    tls_path: Seq<char>,
    names: TlsFileNames,
    first: TlsFindings,
    second: TlsFindings,
    first_made: Result<rustls::ServerConfig, String>,
    second_made: Result<rustls::ServerConfig, String>,
    first_result: Result<rustls::ServerConfig, CertsError>,
    second_result: Result<rustls::ServerConfig, CertsError>,
)
    requires
        first.is_same_but_for_provider(second),
        made_alike(first_made, second_made),
        finishes(first_made, first_result),
        finishes(second_made, second_result),
    ensures
        tls_action(tls_path, names, first) == tls_action(tls_path, names, second),
        come_out_alike(first_result, second_result),
{
    law_installed_provider_changes_nothing(tls_path, names, first, second);
}

/// Two configurations for one certificate chain and key agree in the certificate
/// and the key, in the protocols, and in that they ask clients for no
/// certificate.
pub proof fn law_legacy_configs_agree(
    first: rustls::ServerConfig,
    second: rustls::ServerConfig,
    chain: Seq<Seq<u8>>,
    key: PrivateKeyView,
)
    requires
        serves_single_cert(first, chain, key),
        serves_single_cert(second, chain, key),
    ensures
        identity_of(first) == identity_of(second),
        alpn_of(first) == alpn_of(second),
        asks_client_cert(first) == asks_client_cert(second),
{
}

/// However HTTPS is set up, clients are offered HTTP/2, HTTP/1.1 and HTTP/1.0 in
/// this order, and are asked for no certificate.
pub proof fn law_both_ways_offer_the_same(
    single: rustls::ServerConfig,
    chain: Seq<Seq<u8>>,
    key: PrivateKeyView,
    several: rustls::ServerConfig,
    resolver: CertResolver,
)
    requires
        serves_single_cert(single, chain, key),
        serves_resolver(several, resolver),
    ensures
        alpn_of(single) == server_protocols(),
        alpn_of(several) == server_protocols(),
        !asks_client_cert(single),
        !asks_client_cert(several),
{
}

/// Nothing is known of the files at first.
pub proof fn law_nothing_is_known_at_first()
    ensures
        TlsFindings::spec_none().directory_exists is None,
        TlsFindings::spec_none().directory_certs is None,
        TlsFindings::spec_none().provider_installed is None,
        TlsFindings::spec_none().resolver_built is None,
        TlsFindings::spec_none().legacy_pair_exists is None,
        TlsFindings::spec_none().legacy_cert_loaded is None,
        TlsFindings::spec_none().legacy_key_loaded is None,
{
}

/// The server does not start only where something failed: a fault is named just
/// where its own finding says so, and where all that comes before it went well.
pub proof fn law_faults_are_failures(
    tls_path: Seq<char>,
    names: TlsFileNames,
    findings: TlsFindings,
)
    ensures
        ({
            let action = tls_action(tls_path, names, findings);
            &&& action == TlsActionView::Fail(TlsFault::Resolver) ==> findings.resolver_built
                == Some(false)
            &&& action == TlsActionView::Fail(TlsFault::LegacyCert) ==> findings.legacy_cert_loaded
                == Some(false)
            &&& action == TlsActionView::Fail(TlsFault::LegacyKey) ==> findings.legacy_key_loaded
                == Some(false) && findings.legacy_cert_loaded == Some(true)
            &&& findings.resolver_built != Some(false) && findings.legacy_cert_loaded != Some(false)
                && findings.legacy_key_loaded != Some(false) ==> !(action is Fail)
        }),
{
}

/// Where the directory holds certificates, as many as there may be, HTTPS is served
/// with them just when the choice among them could be set up, and the server does
/// not start just when it could not; what is known of the legacy layout does not
/// matter.
pub proof fn law_directory_certs_are_served(
    tls_path: Seq<char>,
    names: TlsFileNames,
    findings: TlsFindings,
    count: usize,
)
    requires
        tls_path.len() > 0,
        findings.directory_exists == Some(true),
        findings.directory_certs == Some(DirectoryCerts::Loaded(count)),
        count > 0,
    ensures
        ({
            let action = tls_action(tls_path, names, findings);
            let provided = findings.provider_installed is Some;
            &&& action is InstallProvider <==> !provided
            &&& action is BuildResolver <==> provided && findings.resolver_built is None
            &&& action is ServeDirectory <==> provided && findings.resolver_built == Some(true)
            &&& action == TlsActionView::Fail(TlsFault::Resolver) <==> provided
                && findings.resolver_built == Some(false)
            &&& action is InstallProvider || action is BuildResolver || action is ServeDirectory
                || action is Fail
        }),
{
}

/// How many certificates the directory holds does not matter, as long as it holds
/// any.
pub proof fn law_number_of_certs_does_not_matter(
    tls_path: Seq<char>,
    names: TlsFileNames,
    findings: TlsFindings,
    few: usize,
    many: usize,
)
    requires
        few > 0,
        many > 0,
    ensures
        tls_action(
            tls_path,
            names,
            TlsFindings { directory_certs: Some(DirectoryCerts::Loaded(few)), ..findings },
        ) == tls_action(
            tls_path,
            names,
            TlsFindings { directory_certs: Some(DirectoryCerts::Loaded(many)), ..findings },
        ),
{
}

/// Where the directory exists and holds no certificates, or they cannot be read,
/// the legacy layout decides: its two files are looked for by their names in the
/// directory, and HTTPS is served with them just when both could be loaded.
pub proof fn law_legacy_pair_is_served(
    tls_path: Seq<char>,
    names: TlsFileNames,
    findings: TlsFindings,
)
    requires
        tls_path.len() > 0,
        findings.directory_exists == Some(true),
        findings.directory_certs == Some(DirectoryCerts::Loaded(0)) || findings.directory_certs
            == Some(DirectoryCerts::Unreadable),
    ensures
        ({
            let action = tls_action(tls_path, names, findings);
            let key_file = tls_path + "/"@ + names.key@;
            let cert_file = tls_path + "/"@ + names.cert@;
            let exists = findings.legacy_pair_exists == Some(true);
            let ready = exists && findings.provider_installed is Some;
            let certified = ready && findings.legacy_cert_loaded == Some(true);
            &&& action is ProbeLegacyPair <==> findings.legacy_pair_exists is None
            &&& action matches TlsActionView::ProbeLegacyPair { key_path, cert_path } ==> key_path
                == key_file && cert_path == cert_file
            &&& action is ServeHttp <==> findings.legacy_pair_exists == Some(false)
            &&& action is InstallProvider <==> exists && findings.provider_installed is None
            &&& action is LoadLegacyCert <==> ready && findings.legacy_cert_loaded is None
            &&& action matches TlsActionView::LoadLegacyCert { cert_path } ==> cert_path
                == cert_file
            &&& action == TlsActionView::Fail(TlsFault::LegacyCert) <==> ready
                && findings.legacy_cert_loaded == Some(false)
            &&& action is LoadLegacyKey <==> certified && findings.legacy_key_loaded is None
            &&& action matches TlsActionView::LoadLegacyKey { key_path } ==> key_path == key_file
            &&& action == TlsActionView::Fail(TlsFault::LegacyKey) <==> certified
                && findings.legacy_key_loaded == Some(false)
            &&& action is ServeLegacyPair <==> certified && findings.legacy_key_loaded == Some(true)
        }),
{
}

/// Without a directory, HTTP is served at once and nothing is asked; with one, it is
/// looked for first and its certificates are loaded next.
pub proof fn law_directory_is_asked_for_first(
    tls_path: Seq<char>,
    names: TlsFileNames,
    findings: TlsFindings,
)
    ensures
        ({
            let action = tls_action(tls_path, names, findings);
            &&& tls_path.len() == 0 ==> action is ServeHttp
            &&& tls_path.len() > 0 ==> (action is ProbeDirectory
                <==> findings.directory_exists is None)
            &&& tls_path.len() > 0 && findings.directory_exists == Some(false)
                ==> action is ServeHttp
            &&& tls_path.len() > 0 && findings.directory_exists == Some(true) ==> (
            action is LoadDirectory <==> findings.directory_certs is None)
        }),
{
}

/// The view of an action is of the same variant and has the characters of its paths.
pub proof fn law_action_views_keep_paths(key_path: String, cert_path: String, fault: TlsFault)
    ensures
        TlsAction::ProbeDirectory@ is ProbeDirectory,
        TlsAction::LoadDirectory@ is LoadDirectory,
        TlsAction::InstallProvider@ is InstallProvider,
        TlsAction::BuildResolver@ is BuildResolver,
        (TlsAction::ProbeLegacyPair { key_path, cert_path })@ == (TlsActionView::ProbeLegacyPair {
            key_path: key_path@,
            cert_path: cert_path@,
        }),
        (TlsAction::LoadLegacyCert { cert_path })@ == (TlsActionView::LoadLegacyCert {
            cert_path: cert_path@,
        }),
        (TlsAction::LoadLegacyKey { key_path })@ == (TlsActionView::LoadLegacyKey {
            key_path: key_path@,
        }),
        TlsAction::ServeHttp@ is ServeHttp,
        TlsAction::ServeDirectory@ is ServeDirectory,
        TlsAction::ServeLegacyPair@ is ServeLegacyPair,
        TlsAction::Fail(fault)@ == TlsActionView::Fail(fault),
{
}

/// No byte of a certificate or a key, no certificate of a chain and no protocol is
/// lost or changed on the way to a configuration.
pub proof fn law_bytes_are_kept(strings: Seq<Vec<u8>>, der: Vec<u8>, i: int)
    ensures
        bytes_of(strings).len() == strings.len(),
        0 <= i < strings.len() ==> bytes_of(strings)[i] == strings[i]@,
        PrivateKey::Pkcs1(der)@ == PrivateKeyView::Pkcs1(der@),
        PrivateKey::Pkcs8(der)@ == PrivateKeyView::Pkcs8(der@),
        PrivateKey::Sec1(der)@ == PrivateKeyView::Sec1(der@),
{
}

/// A configuration that could be made is served with its own certificates and the
/// protocols `h2`, `http/1.1` and `http/1.0`, and asks clients for a certificate as
/// little as before; an error keeps its text, whatever it is.
pub proof fn law_finishing_keeps_what_was_made(
    made: Result<rustls::ServerConfig, String>,
    r: Result<rustls::ServerConfig, CertsError>,
)
    requires
        finishes(made, r),
    ensures
        made is Ok <==> r is Ok,
        made matches Err(text) ==> r matches Err(error) && error.message@ == text@,
        made matches Ok(config) ==> {
            &&& r matches Ok(done)
            &&& identity_of(done) == identity_of(config)
            &&& resolver_of(done) == resolver_of(config)
            &&& asks_client_cert(done) == asks_client_cert(config)
            &&& alpn_of(done).len() == 3
            &&& alpn_of(done)[0] == seq![0x68u8, 0x32u8]
            &&& alpn_of(done)[1] == seq![
                0x68u8,
                0x74u8,
                0x74u8,
                0x70u8,
                0x2fu8,
                0x31u8,
                0x2eu8,
                0x31u8,
            ]
            &&& alpn_of(done)[2] == seq![
                0x68u8,
                0x74u8,
                0x74u8,
                0x70u8,
                0x2fu8,
                0x31u8,
                0x2eu8,
                0x30u8,
            ]
        },
{
    reveal_strlit("h2");
    reveal_strlit("http/1.1");
    reveal_strlit("http/1.0");
    vstd::utf8::is_ascii_chars_encode_utf8("h2"@);
    vstd::utf8::is_ascii_chars_encode_utf8("http/1.1"@);
    vstd::utf8::is_ascii_chars_encode_utf8("http/1.0"@);
}

/// A configuration for a single certificate holds the whole chain and the key, and
/// one for several the resolver; neither asks clients for a certificate.
pub proof fn law_configurations_hold_what_they_serve(
    config: rustls::ServerConfig,
    chain: Seq<Seq<u8>>,
    key: PrivateKeyView,
    resolver: CertResolver,
)
    ensures
        serves_single_cert(config, chain, key) ==> identity_of(config).0 == chain && identity_of(
            config,
        ).1 == key && !asks_client_cert(config) && alpn_of(config).len() == 3,
        serves_resolver(config, resolver) ==> resolver_of(config) == resolver && !asks_client_cert(
            config,
        ) && alpn_of(config).len() == 3,
{
}

} // verus!
