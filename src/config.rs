//! The resolved configuration that the proxy consumes.

use crate::keystore::Backends;
use vstd::prelude::*;

verus! {

/// The whole configuration of a running server.
#[derive(Clone, Debug)]
pub struct Settings {
    pub server: Server,
    pub endpoint: Endpoint,
    pub proxy: Proxy,
    pub logging: Logging,
}

/// Where the server listens and how it is reached from outside.
#[derive(Clone, Debug)]
pub struct Server {
    pub listen: String,
    pub port: u16,
    /// The externally visible base URL, used to build public proxy links.
    pub base_url: String,
    pub tls: Option<Tls>,
}

/// TLS certificate settings.
#[derive(Clone, Debug)]
pub struct Tls {
    pub enabled: bool,
    pub cert: String,
    pub key: String,
}

/// Which HTTP surfaces are enabled.
#[derive(Clone, Debug)]
pub struct Endpoint {
    pub frontend: bool,
    pub api: bool,
    pub rss: bool,
}

/// The proxy's storage backend.
#[derive(Clone, Debug)]
pub struct Proxy {
    pub backend: Backends,
    /// Connection settings, required when `backend` is `Redis`.
    pub redis: Option<Redis>,
}

/// Connection settings of the remote key/value service.
#[derive(Clone, Debug)]
pub struct Redis {
    pub uri: String,
}

/// Logging settings.
#[derive(Clone, Debug)]
pub struct Logging {
    pub level: String,
    pub log_ips: bool,
    pub log_cdn: bool,
    pub store: bool,
    pub output: String,
}

} // verus!
