//! The configuration of a relay server, as its configuration file spells it.

use crate::access::AccessConfig;
use crate::addr::{
    SocketAddr, DEFAULT_HTTPS_PORT, DEFAULT_HTTP_PORT, DEFAULT_METRICS_PORT,
    DEFAULT_RELAY_QUIC_PORT,
};
use crate::cfg_defaults;
use crate::path::FilePath;
use vstd::prelude::*;

verus! {

/// How the server gets its certificate.
#[derive(Clone, Copy, Debug, PartialEq, Eq, Structural)]
pub enum CertMode {
    /// From files that are read once.
    Manual,
    /// From LetsEncrypt.
    LetsEncrypt,
    /// From files that are read again from time to time.
    Reloading,
}

/// The configuration of a relay server.
#[derive(Debug)]
pub struct Config {
    /// Whether to run the relay server. If not, only the QUIC server and the metrics
    /// server are left, and the `tls` section counts for nothing but the QUIC server.
    pub enable_relay: bool,
    /// The address of the HTTP server. Defaults to `[::]:80`, or to `[::]:3340` in
    /// development mode.
    ///
    /// All relay services are bound here if there is no `tls` section. Otherwise
    /// most of them are bound to the HTTPS server's address, and only the captive
    /// portal is served from here.
    pub http_bind_addr: Option<SocketAddr>,
    /// What concerns TLS. All services run on plain HTTP if it is missing. It must
    /// be there if `enable_quic_addr_discovery` is set.
    pub tls: Option<TlsConfig>,
    /// Whether to run the QUIC server for QUIC address discovery.
    pub enable_quic_addr_discovery: bool,
    /// The rate limits. There are none if it is missing.
    pub limits: Option<Limits>,
    /// Whether to run the metrics server.
    pub enable_metrics: bool,
    /// The address of the metrics server. Defaults to the HTTP server's address
    /// with port 9090.
    pub metrics_bind_addr: Option<SocketAddr>,
    /// The capacity of the key cache.
    pub key_cache_capacity: Option<usize>,
    /// Which nodes may relay connections.
    pub access: AccessConfig,
}

/// What concerns TLS.
#[derive(Debug)]
pub struct TlsConfig {
    /// The address of the HTTPS server. Defaults to the HTTP server's address with
    /// port 443.
    pub https_bind_addr: Option<SocketAddr>,
    /// The address of the QUIC server. Defaults to the HTTPS server's address with
    /// port 7842.
    pub quic_bind_addr: Option<SocketAddr>,
    /// The hostname that a LetsEncrypt certificate is for.
    pub hostname: Option<String>,
    /// How the server gets its certificate.
    pub cert_mode: CertMode,
    /// The directory of the certificates. Defaults to the current directory.
    pub cert_dir: Option<String>,
    /// The file to read the certificate from. Defaults to
    /// `<cert_dir>/default.crt`.
    pub manual_cert_path: Option<String>,
    /// The file to read the private key from. Defaults to
    /// `<cert_dir>/default.key`.
    pub manual_key_path: Option<String>,
    /// Whether LetsEncrypt's production server is asked, or its staging server.
    pub prod_tls: bool,
    /// The email address of the contact for a LetsEncrypt certificate.
    pub contact: Option<String>,
    /// Whether HTTPS is left unbound although TLS is configured. The section then
    /// counts for nothing but the QUIC server. Set in development mode, never by
    /// hand.
    pub dangerous_http_only: bool,
}

/// A rate, carried as the bit pattern of the floating-point number that the
/// configuration file spells.
#[derive(Clone, Copy, Debug, PartialEq, Eq, Structural)]
pub struct ConnRate {
    pub bits: u64,
}

/// The rate limits.
#[derive(Clone, Copy, Debug)]
pub struct Limits {
    /// The rate at which connections are accepted. Unlimited if not set.
    pub accept_conn_limit: Option<ConnRate>,
    /// The number of connections accepted in a burst. Unlimited if not set.
    pub accept_conn_burst: Option<usize>,
    /// The rate limits of each client.
    pub client: Option<PerClientRateLimitConfig>,
}

/// The rate limits of a client.
#[derive(Clone, Copy, Debug)]
pub struct PerClientRateLimitConfig {
    /// The rate limit of what comes in from the client.
    pub rx: Option<RateLimitConfig>,
}

/// A rate limit, kept by a token bucket: a steady rate, and a quota that may be
/// sent in a burst on top of it.
#[derive(Clone, Copy, Debug)]
pub struct RateLimitConfig {
    /// The number of bytes allowed in a second.
    pub bytes_per_second: Option<u32>,
    /// The number of bytes allowed in a single burst.
    pub max_burst_bytes: Option<u32>,
}

impl Default for Limits {
    fn default() -> (limits: Limits)
        ensures
            limits == (Limits { accept_conn_limit: None, accept_conn_burst: None, client: None }),
    {
        Limits { accept_conn_limit: None, accept_conn_burst: None, client: None }
    }
}

impl Default for PerClientRateLimitConfig {
    fn default() -> (limits: PerClientRateLimitConfig)
        ensures
            limits.rx is None,
    {
        PerClientRateLimitConfig { rx: None }
    }
}

impl Default for RateLimitConfig {
    fn default() -> (limit: RateLimitConfig)
        ensures
            limit == (RateLimitConfig { bytes_per_second: None, max_burst_bytes: None }),
    {
        RateLimitConfig { bytes_per_second: None, max_burst_bytes: None }
    }
}

impl Config {
    /// The configuration that an empty configuration file spells.
    pub open spec fn initial() -> Config {
        Config {
            enable_relay: true,
            http_bind_addr: None,
            tls: None,
            enable_quic_addr_discovery: false,
            limits: None,
            enable_metrics: true,
            metrics_bind_addr: None,
            key_cache_capacity: None,
            access: AccessConfig::Everyone,
        }
    }

    /// The address of the HTTP server.
    pub open spec fn http_addr(self) -> SocketAddr {
        match self.http_bind_addr {
            Some(addr) => addr,
            None => SocketAddr::any(DEFAULT_HTTP_PORT),
        }
    }

    /// The address of the metrics server.
    pub open spec fn metrics_addr(self) -> SocketAddr {
        match self.metrics_bind_addr {
            Some(addr) => addr,
            None => SocketAddr::at(self.http_addr().ip_part(), DEFAULT_METRICS_PORT),
        }
    }

    /// Whether HTTPS is left unbound although TLS is configured.
    pub open spec fn http_only(self) -> bool {
        self.tls matches Some(tls) && tls.dangerous_http_only
    }

    /// Whether a server runs that uses TLS if it is configured: the QUIC server, or
    /// the relay with HTTPS bound.
    pub open spec fn uses_tls(self) -> bool {
        self.enable_quic_addr_discovery || (self.enable_relay && !self.http_only())
    }

    /// Returns whether HTTPS is left unbound although TLS is configured.
    pub fn is_http_only(&self) -> (http_only: bool)
        ensures
            http_only == self.http_only(),
    {
        match &self.tls {
            Some(tls) => tls.dangerous_http_only,
            None => false,
        }
    }

    /// Returns the address of the HTTP server.
    pub fn http_bind_addr(&self) -> (addr: SocketAddr)
        ensures
            addr == self.http_addr(),
    {
        match self.http_bind_addr {
            Some(addr) => addr,
            None => SocketAddr::unspecified(DEFAULT_HTTP_PORT),
        }
    }

    /// Returns the address of the metrics server.
    pub fn metrics_bind_addr(&self) -> (addr: SocketAddr)
        ensures
            addr == self.metrics_addr(),
    {
        match self.metrics_bind_addr {
            Some(addr) => addr,
            None => SocketAddr::new(self.http_bind_addr().ip(), DEFAULT_METRICS_PORT),
        }
    }
}

impl Default for Config {
    fn default() -> (config: Config)
        ensures
            config == Config::initial(),
    {
        Config {
            enable_relay: cfg_defaults::enable_relay(),
            http_bind_addr: None,
            tls: None,
            enable_quic_addr_discovery: cfg_defaults::enable_quic_addr_discovery(),
            limits: None,
            enable_metrics: cfg_defaults::enable_metrics(),
            metrics_bind_addr: None,
            key_cache_capacity: None,
            access: AccessConfig::Everyone,
        }
    }
}

impl TlsConfig {
    /// The address of the HTTPS server.
    pub open spec fn https_addr(self, config: Config) -> SocketAddr {
        match self.https_bind_addr {
            Some(addr) => addr,
            None => SocketAddr::at(config.http_addr().ip_part(), DEFAULT_HTTPS_PORT),
        }
    }

    /// The address of the QUIC server.
    pub open spec fn quic_addr(self, config: Config) -> SocketAddr {
        match self.quic_bind_addr {
            Some(addr) => addr,
            None => SocketAddr::at(self.https_addr(config).ip_part(), DEFAULT_RELAY_QUIC_PORT),
        }
    }

    /// The directory of the certificates.
    pub open spec fn dir(self) -> Seq<char> {
        match self.cert_dir {
            Some(dir) => dir@,
            None => "."@,
        }
    }

    /// The file at the path `configured`, or the file `name` in the directory of the
    /// certificates if no path is configured.
    pub open spec fn file_or(
        self,
        configured: Option<String>,
        name: Seq<char>,
    ) -> crate::path::FilePathView {
        match configured {
            Some(path) => crate::path::FilePathView::At(path@),
            None => crate::path::FilePathView::In { dir: self.dir(), name },
        }
    }

    /// The file of the certificate.
    pub open spec fn cert_file(self) -> crate::path::FilePathView {
        self.file_or(self.manual_cert_path, "default.crt"@)
    }

    /// The file of the private key.
    pub open spec fn key_file(self) -> crate::path::FilePathView {
        self.file_or(self.manual_key_path, "default.key"@)
    }

    /// Returns the address of the HTTPS server.
    pub fn https_bind_addr(&self, config: &Config) -> (addr: SocketAddr)
        ensures
            addr == self.https_addr(*config),
    {
        match self.https_bind_addr {
            Some(addr) => addr,
            None => SocketAddr::new(config.http_bind_addr().ip(), DEFAULT_HTTPS_PORT),
        }
    }

    /// Returns the address of the QUIC server.
    pub fn quic_bind_addr(&self, config: &Config) -> (addr: SocketAddr)
        ensures
            addr == self.quic_addr(*config),
    {
        match self.quic_bind_addr {
            Some(addr) => addr,
            None => SocketAddr::new(self.https_bind_addr(config).ip(), DEFAULT_RELAY_QUIC_PORT),
        }
    }

    /// Returns the directory of the certificates.
    pub fn cert_dir(&self) -> (dir: String)
        ensures
            dir@ == self.dir(),
    {
        match &self.cert_dir {
            Some(dir) => dir.clone(),
            None => ".".to_owned(),
        }
    }

    /// Returns where the certificate's file is.
    pub fn cert_path(&self) -> (path: FilePath)
        ensures
            path@ == self.cert_file(),
    {
        match &self.manual_cert_path {
            Some(path) => FilePath::At(path.clone()),
            None => FilePath::In { dir: self.cert_dir(), name: "default.crt".to_owned() },
        }
    }

    /// Returns where the private key's file is.
    pub fn key_path(&self) -> (path: FilePath)
        ensures
            path@ == self.key_file(),
    {
        match &self.manual_key_path {
            Some(path) => FilePath::At(path.clone()),
            None => FilePath::In { dir: self.cert_dir(), name: "default.key".to_owned() },
        }
    }
}

/// Servers that are given no address of their own run on the IP address of the
/// HTTP server, each on its own port.
pub proof fn servers_share_the_http_server_ip(config: Config, tls: TlsConfig)
    ensures
        config.metrics_bind_addr is None ==> config.metrics_addr().ip_part()
            == config.http_addr().ip_part() && config.metrics_addr().port_part()
            == DEFAULT_METRICS_PORT,
        tls.https_bind_addr is None ==> tls.https_addr(config).ip_part()
            == config.http_addr().ip_part() && tls.https_addr(config).port_part()
            == DEFAULT_HTTPS_PORT,
        tls.quic_bind_addr is None ==> tls.quic_addr(config).ip_part() == tls.https_addr(
            config,
        ).ip_part() && tls.quic_addr(config).port_part() == DEFAULT_RELAY_QUIC_PORT,
        tls.quic_bind_addr is None && tls.https_bind_addr is None ==> tls.quic_addr(
            config,
        ).ip_part() == config.http_addr().ip_part(),
{
}

/// The certificate and the private key, left to their defaults, are two
/// different files in one directory.
pub proof fn default_files_differ(tls: TlsConfig)
    requires
        tls.manual_cert_path is None,
        tls.manual_key_path is None,
    ensures
        tls.cert_file() matches crate::path::FilePathView::In { dir: cert_dir, name: cert_name } && (
        tls.key_file() matches crate::path::FilePathView::In { dir: key_dir, name: key_name }
            && cert_dir == key_dir && cert_name != key_name),
{
    reveal_strlit("default.crt");
    reveal_strlit("default.key");
    assert("default.crt"@.last() != "default.key"@.last());
}

} // verus!
