//! Configurations and the servers that they make.

use relay_config::access::{AccessConfig, HttpAccessConfig};
use relay_config::addr::{IpAddr, SocketAddr};
use relay_config::cfg_defaults;
use relay_config::config::{
    CertMode, Config, ConnRate, Limits, PerClientRateLimitConfig, RateLimitConfig, TlsConfig,
};
use relay_config::error::ConfigError;
use relay_config::node_id::NodeId;
use relay_config::path::FilePath;
use relay_config::server::{build_relay_config, relay_limits, ClientRateLimit, RelayLimits};
use relay_config::startup::{config_source, ConfigSource, PathState};
use std::num::NonZeroU32;

/// The configuration that `text` spells, with the keys that the tests use.
fn from_str(text: &str) -> Config {
    let table: toml::Table = toml::from_str(text).unwrap();
    let limits = table.get("limits").map(|limits| Limits {
        client: limits.get("client").map(|client| PerClientRateLimitConfig {
            rx: client.get("rx").map(|rx| RateLimitConfig {
                bytes_per_second: rx
                    .get("bytes_per_second")
                    .map(|n| n.as_integer().unwrap().try_into().unwrap()),
                max_burst_bytes: rx
                    .get("max_burst_bytes")
                    .map(|n| n.as_integer().unwrap().try_into().unwrap()),
            }),
        }),
        ..Limits::default()
    });
    Config { limits, ..Config::default() }
}

fn rx(bytes_per_second: Option<u32>, max_burst_bytes: Option<u32>) -> Option<Limits> {
    let rx = RateLimitConfig { bytes_per_second, max_burst_bytes };
    Some(Limits {
        accept_conn_limit: None,
        accept_conn_burst: None,
        client: Some(PerClientRateLimitConfig { rx: Some(rx) }),
    })
}

fn manual_tls() -> TlsConfig {
    TlsConfig {
        https_bind_addr: None,
        quic_bind_addr: None,
        hostname: None,
        cert_mode: CertMode::Manual,
        cert_dir: None,
        manual_cert_path: None,
        manual_key_path: None,
        prod_tls: cfg_defaults::prod_tls(),
        contact: None,
        dangerous_http_only: cfg_defaults::dangerous_http_only(),
    }
}

const LOOPBACK: SocketAddr = SocketAddr::V4 { ip: 0x7f000001, port: 8080 };

#[test]
fn test_rate_limit_config() {
    let config = "
            [limits.client.rx]
            bytes_per_second = 400
            max_burst_bytes = 800
        ";
    let config = from_str(config);
    let relay_config = build_relay_config(config, None, None).unwrap();

    let relay = relay_config.relay.expect("no relay config");
    assert_eq!(
        relay.limits.client_rx.expect("ratelimit").bytes_per_second,
        NonZeroU32::try_from(400).unwrap().get()
    );
    assert_eq!(
        relay.limits.client_rx.expect("ratelimit").max_burst_bytes,
        Some(NonZeroU32::try_from(800).unwrap().get())
    );
}

#[test]
fn test_rate_limit_default() {
    let config = from_str("");
    let relay_config = build_relay_config(config, None, None).unwrap();

    let relay = relay_config.relay.expect("no relay config");
    assert!(relay.limits.client_rx.is_none());
}

fn http(bearer_token: Option<&str>) -> AccessConfig {
    AccessConfig::Http(HttpAccessConfig {
        url: "https://example.com/foo/bar?boo=baz".parse().unwrap(),
        bearer_token: bearer_token.map(str::to_string),
    })
}

#[test]
fn access_is_passed_on() {
    let node = || NodeId { bytes: [0x5a; 32] };
    let cases = [
        (AccessConfig::Everyone, AccessConfig::Everyone),
        (AccessConfig::Allowlist(vec![node()]), AccessConfig::Allowlist(vec![node()])),
        (AccessConfig::Denylist(vec![node()]), AccessConfig::Denylist(vec![node()])),
        (http(None), http(None)),
        (http(Some("foo")), http(Some("foo"))),
    ];
    for (access, expected) in cases {
        let config = Config { access, ..Config::default() };
        let server = build_relay_config(config, None, None).unwrap();
        assert_eq!(server.relay.unwrap().access, expected);
    }
}

#[test]
fn defaults_of_missing_fields() {
    assert!(cfg_defaults::enable_relay());
    assert!(!cfg_defaults::enable_quic_addr_discovery());
    assert!(cfg_defaults::enable_metrics());
    assert!(cfg_defaults::prod_tls());
    assert!(!cfg_defaults::dangerous_http_only());
    assert!(PerClientRateLimitConfig::default().rx.is_none());
    assert!(RateLimitConfig::default().bytes_per_second.is_none());
    assert!(RateLimitConfig::default().max_burst_bytes.is_none());
}

#[test]
fn the_default_config_runs() {
    let server = build_relay_config(Config::default(), None, Some("foo".to_string())).unwrap();
    let relay = server.relay.unwrap();
    assert_eq!(relay.http_bind_addr, SocketAddr::unspecified(80));
    assert!(relay.tls.is_none());
    assert_eq!(
        relay.limits,
        RelayLimits { accept_conn_limit: None, accept_conn_burst: None, client_rx: None }
    );
    assert_eq!(relay.key_cache_capacity, None);
    assert_eq!(relay.access, AccessConfig::Everyone);
    assert!(server.quic.is_none());
    assert_eq!(server.metrics_addr, Some(SocketAddr::unspecified(9090)));
}

#[test]
fn metrics_can_be_disabled() {
    let config = Config { enable_metrics: false, ..Config::default() };
    assert_eq!(build_relay_config(config, None, None).unwrap().metrics_addr, None);
}

#[test]
fn the_relay_can_be_disabled() {
    let config = Config { enable_relay: false, ..Config::default() };
    let server = build_relay_config(config, None, None).unwrap();
    assert!(server.relay.is_none());
    assert_eq!(server.metrics_addr, Some(SocketAddr::unspecified(9090)));
}

#[test]
fn limits_are_passed_on() {
    let rate = ConnRate { bits: 2.5f64.to_bits() };
    let limits = Limits { accept_conn_limit: Some(rate), accept_conn_burst: Some(7), client: None };
    let config =
        Config { limits: Some(limits), key_cache_capacity: Some(64), ..Config::default() };
    let relay = build_relay_config(config, None, None).unwrap().relay.unwrap();
    assert_eq!(relay.limits.accept_conn_limit, Some(rate));
    assert_eq!(relay.limits.accept_conn_burst, Some(7));
    assert_eq!(relay.limits.client_rx, None);
    assert_eq!(relay.key_cache_capacity, Some(64));
}

#[test]
fn rate_limits_need_a_rate() {
    let limits = rx(None, Some(800));
    assert_eq!(relay_limits(&limits).unwrap_err(), ConfigError::MissingBytesPerSecond);
    assert_eq!(relay_limits(&rx(None, None)).unwrap().client_rx, None);
    let limit = ClientRateLimit { bytes_per_second: 1, max_burst_bytes: None };
    assert_eq!(relay_limits(&rx(Some(1), None)).unwrap().client_rx, Some(limit));
}

#[test]
fn rate_limits_of_zero_are_refused() {
    let cases = [
        (Some(0), None, ConfigError::ZeroBytesPerSecond),
        (Some(0), Some(0), ConfigError::ZeroBytesPerSecond),
        (Some(400), Some(0), ConfigError::ZeroMaxBurstBytes),
        (None, Some(0), ConfigError::MissingBytesPerSecond),
    ];
    for (rate, burst, error) in cases {
        let config = Config { limits: rx(rate, burst), ..Config::default() };
        assert_eq!(build_relay_config(config, None, None).unwrap_err(), error);
    }
}

#[test]
fn the_environment_token_reaches_the_server() {
    for token in [None, Some("foo")] {
        let config = Config { access: http(token), ..Config::default() };
        let server = build_relay_config(config, None, Some("bar".to_string())).unwrap();
        assert_eq!(server.relay.unwrap().access, http(Some("bar")));
    }
}

#[test]
fn addresses_follow_the_http_server() {
    let config = Config { http_bind_addr: Some(LOOPBACK), ..Config::default() };
    let tls = manual_tls();
    let at = |port| SocketAddr::V4 { ip: 0x7f000001, port };
    assert_eq!(config.http_bind_addr(), LOOPBACK);
    assert_eq!(config.metrics_bind_addr(), at(9090));
    assert_eq!(tls.https_bind_addr(&config), at(443));
    assert_eq!(tls.quic_bind_addr(&config), at(7842));
}

#[test]
fn the_quic_server_follows_the_https_server() {
    let https = SocketAddr::V6 { ip: 1, port: 4433, flowinfo: 5, scope_id: 6 };
    let tls = TlsConfig { https_bind_addr: Some(https), ..manual_tls() };
    let config = Config { http_bind_addr: Some(LOOPBACK), ..Config::default() };
    assert_eq!(tls.https_bind_addr(&config), https);
    assert_eq!(
        tls.quic_bind_addr(&config),
        SocketAddr::V6 { ip: 1, port: 7842, flowinfo: 0, scope_id: 0 }
    );
}

#[test]
fn configured_addresses_stand() {
    let config = Config { metrics_bind_addr: Some(LOOPBACK), ..Config::default() };
    assert_eq!(config.metrics_bind_addr(), LOOPBACK);
    let tls = TlsConfig { quic_bind_addr: Some(LOOPBACK), ..manual_tls() };
    assert_eq!(tls.quic_bind_addr(&config), LOOPBACK);
}

#[test]
fn addresses_keep_their_parts() {
    for ip in [IpAddr::V4(0x7f000001), IpAddr::V6(1)] {
        let addr = SocketAddr::new(ip, 80);
        assert_eq!(addr.ip(), ip);
    }
    let v4 = SocketAddr::new(IpAddr::V4(0x7f000001), 8080);
    assert_eq!(v4, LOOPBACK);
    let v6 = SocketAddr::new(IpAddr::V6(0), 80);
    assert_eq!(v6, SocketAddr::unspecified(80));
}

#[test]
fn files_stand_in_the_certificate_directory() {
    let tls = TlsConfig { cert_dir: Some("certs/".to_string()), ..manual_tls() };
    assert_eq!(tls.cert_dir(), "certs/");
    let file_in = |dir: &str, name: &str| FilePath::In { dir: dir.to_string(), name: name.to_string() };
    assert_eq!(tls.cert_path(), file_in("certs/", "default.crt"));
    assert_eq!(tls.key_path(), file_in("certs/", "default.key"));
    assert_eq!(manual_tls().cert_dir(), ".");
    assert_eq!(manual_tls().cert_path(), file_in(".", "default.crt"));
    assert_eq!(manual_tls().key_path(), file_in(".", "default.key"));
    let tls = TlsConfig {
        manual_cert_path: Some("a.crt".to_string()),
        manual_key_path: Some("b.key".to_string()),
        ..tls
    };
    assert_eq!(tls.cert_path(), FilePath::At("a.crt".to_string()));
    assert_eq!(tls.key_path(), FilePath::At("b.key".to_string()));
}

#[test]
fn where_the_config_comes_from() {
    assert_eq!(config_source(None), Ok(ConfigSource::Defaults));
    assert_eq!(config_source(Some(PathState::Missing)), Ok(ConfigSource::NewFile));
    assert_eq!(config_source(Some(PathState::File)), Ok(ConfigSource::File));
    assert_eq!(config_source(Some(PathState::Other)), Err(ConfigError::NotAFile));
}

#[test]
fn quic_needs_tls() {
    for dev in [false, true] {
        let mut config = Config { enable_quic_addr_discovery: true, ..Config::default() };
        assert_eq!(config.prepare(dev), Err(ConfigError::QuicWithoutTls));
        assert!(config.http_bind_addr.is_none());
    }
    let config = Config { enable_quic_addr_discovery: true, ..Config::default() };
    assert_eq!(
        build_relay_config(config, None, None).unwrap_err(),
        ConfigError::QuicWithoutServerConfig
    );
}

#[test]
fn dev_mode_changes_the_default_address() {
    let mut config = Config::default();
    config.prepare(true).unwrap();
    assert_eq!(config.http_bind_addr(), SocketAddr::unspecified(3340));
    assert_eq!(config.metrics_bind_addr(), SocketAddr::unspecified(9090));
    config.prepare(true).unwrap();
    assert_eq!(config.http_bind_addr(), SocketAddr::unspecified(3340));

    let mut config = Config { http_bind_addr: Some(LOOPBACK), ..Config::default() };
    config.prepare(true).unwrap();
    assert_eq!(config.http_bind_addr(), LOOPBACK);
}

#[test]
fn dev_mode_leaves_https_unbound() {
    let mut config = Config { tls: Some(manual_tls()), ..Config::default() };
    config.prepare(false).unwrap();
    assert!(config.http_bind_addr.is_none());
    assert!(!config.tls.as_ref().unwrap().dangerous_http_only);
    config.prepare(true).unwrap();
    assert!(config.tls.as_ref().unwrap().dangerous_http_only);
}

#[test]
fn errors_tell_what_is_wrong() {
    let texts = [
        (ConfigError::NotAFile, "config-path must be a file"),
        (
            ConfigError::QuicWithoutTls,
            "TLS must be configured in order to spawn a QUIC endpoint",
        ),
        (
            ConfigError::QuicWithoutServerConfig,
            "Must have a valid TLS configuration to enable a QUIC server for QUIC address discovery",
        ),
        (ConfigError::MissingHostname, "LetsEncrypt needs a hostname"),
        (ConfigError::MissingContact, "LetsEncrypt needs a contact email"),
        (
            ConfigError::MissingBytesPerSecond,
            "bytes_per_seconds must be specified to enable the rate-limiter",
        ),
        (ConfigError::ZeroBytesPerSecond, "bytes_per_second must be non-zero u32"),
        (ConfigError::ZeroMaxBurstBytes, "max_burst_bytes must be non-zero u32"),
    ];
    for (error, text) in texts {
        assert_eq!(error.message(), text);
    }
}
