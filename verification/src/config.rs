//! What the operator configures.
use vstd::prelude::*;

verus! {

/// The options of the server.
#[derive(Debug)]
pub struct Opt {
    /// The address to listen on, as `host:port`.
    pub address: String,
    /// The domains that virtual-hosted-style requests may name.
    pub server_domains: Vec<String>,
    /// The access key of the root user.
    pub access_key: String,
    /// The secret key of the root user.
    pub secret_key: String,
    /// Whether the web console is served.
    pub console_enable: bool,
    /// The directory that holds certificates and keys.
    pub tls_path: Option<String>,
}

/// The keys that the root user has unless the operator sets others.
#[derive(Debug)]
pub struct DefaultCredentials {
    pub access_key: String,
    pub secret_key: String,
}

} // verus!
