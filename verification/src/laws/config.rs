//! What holds of configurations, before any server is made of them.

use crate::access::AccessConfig;
use crate::addr::SocketAddr;
use crate::config::{Config, Limits, PerClientRateLimitConfig, RateLimitConfig, TlsConfig};
use crate::error::ConfigError;
use crate::path::FilePath;
use crate::startup::{config_source, ConfigSource, PathState};
use vstd::prelude::*;

verus! {

/// The directory of the certificates is the one that is configured, or the current
/// directory if none is.
pub proof fn configured_directory_stands(tls: TlsConfig, dir: String)
    requires
        call_ensures(TlsConfig::cert_dir, (&tls,), dir),
    ensures
        tls.cert_dir matches Some(configured) ==> dir@ == configured@,
        tls.cert_dir is None ==> dir@ == "."@,
{
}

/// A path that is configured for a file stands, whatever directory is configured.
pub proof fn configured_paths_stand(tls: TlsConfig, cert: FilePath, key: FilePath)
    requires
        call_ensures(TlsConfig::cert_path, (&tls,), cert),
        call_ensures(TlsConfig::key_path, (&tls,), key),
    ensures
        tls.manual_cert_path matches Some(configured) ==> (cert matches FilePath::At(path) && path@
            == configured@),
        tls.manual_key_path matches Some(configured) ==> (key matches FilePath::At(path) && path@
            == configured@),
{
}

/// A file whose path is not configured is in the directory of the certificates, under
/// its own name, whatever is configured for the other file.
pub proof fn missing_paths_go_by_the_directory(
    tls: TlsConfig,
    dir: String,
    cert: FilePath,
    key: FilePath,
)
    requires
        call_ensures(TlsConfig::cert_dir, (&tls,), dir),
        call_ensures(TlsConfig::cert_path, (&tls,), cert),
        call_ensures(TlsConfig::key_path, (&tls,), key),
    ensures
        tls.manual_cert_path is None ==> (cert matches FilePath::In { dir: own, name } && own@ == dir@
            && name@ == "default.crt"@),
        tls.manual_key_path is None ==> (key matches FilePath::In { dir: own, name } && own@ == dir@
            && name@ == "default.key"@),
{
}

/// HTTPS is left unbound exactly where the `tls` section is there and says so.
pub proof fn https_is_unbound_by_the_section(config: Config, http_only: bool)
    requires
        call_ensures(Config::is_http_only, (&config,), http_only),
    ensures
        http_only <==> config.tls is Some && config.tls->0.dangerous_http_only,
        config.http_only() == http_only,
        config.uses_tls() <==> config.enable_quic_addr_discovery || config.enable_relay
            && !http_only,
{
}

/// The default configuration runs the relay and the metrics server, and leaves
/// everything else unset.
pub proof fn default_configuration_sets_nothing(config: Config)
    requires
        call_ensures(Config::default, (), config),
    ensures
        config.enable_relay,
        config.enable_metrics,
        !config.enable_quic_addr_discovery,
        config.http_bind_addr is None,
        config.metrics_bind_addr is None,
        config.tls is None,
        config.limits is None,
        config.key_cache_capacity is None,
        config.access == AccessConfig::Everyone,
{
}

/// Limits that are left to their defaults limit nothing.
pub proof fn default_limits_are_none(
    limits: Limits,
    client: PerClientRateLimitConfig,
    rx: RateLimitConfig,
)
    requires
        call_ensures(Limits::default, (), limits),
        call_ensures(PerClientRateLimitConfig::default, (), client),
        call_ensures(RateLimitConfig::default, (), rx),
    ensures
        limits.accept_conn_limit is None && limits.accept_conn_burst is None && limits.client
            is None,
        client.rx is None,
        rx.bytes_per_second is None && rx.max_burst_bytes is None,
{
}

/// A configuration is read exactly where a file stands at the path that is given. A
/// default configuration is written exactly where nothing stands there, and only
/// something that is no file is refused.
pub proof fn configuration_comes_from_a_file(
    path: Option<PathState>,
    result: Result<ConfigSource, ConfigError>,
)
    requires
        call_ensures(config_source, (path,), result),
    ensures
        result == Ok::<ConfigSource, ConfigError>(ConfigSource::File) <==> path == Some(
            PathState::File,
        ),
        result == Ok::<ConfigSource, ConfigError>(ConfigSource::NewFile) <==> path == Some(
            PathState::Missing,
        ),
        result is Err <==> path == Some(PathState::Other),
        result matches Err(error) ==> error == ConfigError::NotAFile,
{
}

/// Development mode sets that HTTPS is left unbound, and the address of the HTTP
/// server if it is not configured, and leaves every other field as it is.
pub proof fn dev_mode_changes_two_fields(config: Config)
    ensures
        ({
            let dev = config.in_dev_mode();
            &&& dev.enable_relay == config.enable_relay
            &&& dev.enable_quic_addr_discovery == config.enable_quic_addr_discovery
            &&& dev.enable_metrics == config.enable_metrics
            &&& dev.metrics_bind_addr == config.metrics_bind_addr
            &&& dev.limits == config.limits
            &&& dev.key_cache_capacity == config.key_cache_capacity
            &&& dev.access == config.access
            &&& dev.tls is Some <==> config.tls is Some
            &&& config.tls matches Some(tls) ==> {
                let dev_tls = dev.tls->0;
                &&& dev_tls.dangerous_http_only
                &&& dev_tls.https_bind_addr == tls.https_bind_addr
                &&& dev_tls.quic_bind_addr == tls.quic_bind_addr
                &&& dev_tls.hostname == tls.hostname
                &&& dev_tls.cert_mode == tls.cert_mode
                &&& dev_tls.cert_dir == tls.cert_dir
                &&& dev_tls.manual_cert_path == tls.manual_cert_path
                &&& dev_tls.manual_key_path == tls.manual_key_path
                &&& dev_tls.prod_tls == tls.prod_tls
                &&& dev_tls.contact == tls.contact
            }
            &&& config.http_bind_addr is Some ==> dev.http_bind_addr == config.http_bind_addr
            &&& config.http_bind_addr is None ==> dev.http_bind_addr == Some(
                SocketAddr::V6 { ip: 0, port: 3340, flowinfo: 0, scope_id: 0 },
            )
        }),
{
}

/// QUIC address discovery lacks its TLS exactly where it is enabled and there is no
/// `tls` section.
pub proof fn quic_needs_the_section(config: Config)
    ensures
        config.quic_lacks_tls() <==> config.enable_quic_addr_discovery && config.tls is None,
{
}

/// Preparing a configuration refuses it, and then leaves it as it was, exactly where
/// QUIC address discovery is enabled without a `tls` section. Otherwise nothing
/// changes, or in development mode what development mode changes.
pub proof fn preparing_checks_then_adapts(dev: bool, result: Result<(), ConfigError>)
    ensures
        forall|config: &mut Config| #[trigger]
            call_ensures(Config::prepare, (config, dev), result) ==> {
                &&& result is Err <==> config.enable_quic_addr_discovery && config.tls is None
                &&& result is Err ==> *final(config) == *config
                &&& result is Ok && !dev ==> *final(config) == *config
                &&& result is Ok && dev ==> *final(config) == config.in_dev_mode()
            },
{
}

/// Two errors with the same text are the same error.
pub proof fn messages_differ(
    a: ConfigError,
    b: ConfigError,
    text_a: &'static str,
    text_b: &'static str,
)
    requires
        call_ensures(ConfigError::message, (&a,), text_a),
        call_ensures(ConfigError::message, (&b,), text_b),
        text_a@ == text_b@,
    ensures
        a == b,
{
    reveal_strlit("config-path must be a file");
    reveal_strlit("TLS must be configured in order to spawn a QUIC endpoint");
    reveal_strlit(
        "Must have a valid TLS configuration to enable a QUIC server for QUIC address discovery",
    );
    reveal_strlit("LetsEncrypt needs a hostname");
    reveal_strlit("LetsEncrypt needs a contact email");
    reveal_strlit("bytes_per_seconds must be specified to enable the rate-limiter");
    reveal_strlit("bytes_per_second must be non-zero u32");
    reveal_strlit("max_burst_bytes must be non-zero u32");
    assert(a.text().len() == b.text().len());
    assert("LetsEncrypt needs a hostname"@.len() == 28);
    assert("LetsEncrypt needs a contact email"@.len() == 33);
    assert("config-path must be a file"@.len() == 26);
}

} // verus!
