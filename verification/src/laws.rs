//! What holds of every relay server, whatever its configuration.

use crate::access::{Access, AccessConfig};
use crate::addr::{SocketAddr, DEFAULT_HTTP_PORT, DEFAULT_METRICS_PORT, DEV_MODE_HTTP_PORT};
use crate::config::Config;
use crate::node_id::NodeId;
use crate::server::RelayLimits;
use crate::tls::RelayTlsConfig;
use vstd::prelude::*;

pub mod access;
pub mod addr;
pub mod config;
pub mod pem;
pub mod server;
pub mod tls;

verus! {

/// In development mode the relay is served over plain HTTP, whatever TLS is
/// configured.
pub proof fn dev_mode_serves_plain_http(
    config: Config,
    relay_tls: Option<RelayTlsConfig>,
    token: Option<String>,
)
    requires
        crate::tls::loaded_for(config.in_dev_mode(), relay_tls),
    ensures
        config.in_dev_mode().server(relay_tls, token).relay matches Some(relay)
            ==> relay.tls is None,
{
}

/// Development mode takes nothing from QUIC address discovery: it runs if and
/// only if it runs otherwise, with the same TLS and on the same address.
pub proof fn dev_mode_keeps_quic(
    config: Config,
    relay_tls: Option<RelayTlsConfig>,
    token: Option<String>,
)
    ensures
        config.in_dev_mode().server(relay_tls, token).quic == config.server(relay_tls, token).quic,
        config.in_dev_mode().quic_lacks_tls() == config.quic_lacks_tls(),
        config.in_dev_mode().error_with(relay_tls) == config.error_with(relay_tls),
        config.enable_quic_addr_discovery ==> crate::tls::loaded_for(
            config.in_dev_mode(),
            relay_tls,
        ) == crate::tls::loaded_for(config, relay_tls),
{
}

/// In development mode, without QUIC address discovery, the `tls` section counts
/// for nothing: nothing of it is used, and the server runs as it does without it.
pub proof fn dev_mode_ignores_tls(config: Config, token: Option<String>)
    requires
        !config.enable_quic_addr_discovery,
    ensures
        config.tls is Some ==> !config.in_dev_mode().uses_tls(),
        crate::tls::loaded_for(config.in_dev_mode(), None),
        config.in_dev_mode().error_with(None) == (Config { tls: None, ..config }).error_with(None),
        config.in_dev_mode().server(None, token) == (Config {
            tls: None,
            ..config
        }).in_dev_mode().server(None, token),
{
}

/// In development mode the HTTP server runs on `[::]:3340`, unless it is given an
/// address, which then stands.
pub proof fn dev_mode_address(config: Config)
    ensures
        config.in_dev_mode().http_addr() == match config.http_bind_addr {
            Some(addr) => addr,
            None => SocketAddr::any(DEV_MODE_HTTP_PORT),
        },
{
}

/// Development mode on top of development mode changes nothing.
pub proof fn dev_mode_is_idempotent(config: Config)
    ensures
        config.in_dev_mode().in_dev_mode() == config.in_dev_mode(),
{
}

/// Where a configuration passes its check and its TLS was loaded, nothing but its
/// rate limits can keep the server from running, and QUIC address discovery runs
/// exactly where it is enabled, on the address that is configured for it.
pub proof fn checked_config_runs_quic(
    config: Config,
    relay_tls: Option<RelayTlsConfig>,
    token: Option<String>,
)
    requires
        !config.quic_lacks_tls(),
        crate::tls::loaded_for(config, relay_tls),
    ensures
        config.error_with(relay_tls) == crate::server::limits_error(config.limits),
        config.server(relay_tls, token).quic is Some <==> config.enable_quic_addr_discovery,
        config.server(relay_tls, token).quic matches Some(quic) ==> quic.bind_addr
            == config.tls->0.quic_addr(config),
{
}

/// Without a `tls` section nothing but plain HTTP is served.
pub proof fn no_tls_serves_plain_http(
    config: Config,
    relay_tls: Option<RelayTlsConfig>,
    token: Option<String>,
)
    requires
        config.tls is None,
        crate::tls::loaded_for(config, relay_tls),
    ensures
        config.server(relay_tls, token).quic is None,
        config.server(relay_tls, token).relay matches Some(relay) ==> relay.tls is None,
{
}

/// With TLS, and unless HTTPS is left unbound, the relay is served over HTTPS on the
/// address that is configured for it.
pub proof fn tls_serves_https(
    config: Config,
    relay_tls: Option<RelayTlsConfig>,
    token: Option<String>,
)
    requires
        config.tls is Some,
        !config.http_only(),
        config.enable_relay,
        crate::tls::loaded_for(config, relay_tls),
    ensures
        config.server(relay_tls, token).relay matches Some(relay) && relay.tls is Some
            && relay.tls->0.https_bind_addr == config.tls->0.https_addr(config),
{
}

/// Disabling the relay takes the relay away and nothing else. Where QUIC address
/// discovery is disabled too, the `tls` section is not used.
pub proof fn disabling_the_relay_leaves_the_rest(
    config: Config,
    relay_tls: Option<RelayTlsConfig>,
    token: Option<String>,
)
    ensures
        ({
            let disabled = Config { enable_relay: false, ..config };
            &&& disabled.uses_tls() == config.enable_quic_addr_discovery
            &&& disabled.server(relay_tls, token).relay is None
            &&& disabled.server(relay_tls, token).quic == config.server(relay_tls, token).quic
            &&& disabled.server(relay_tls, token).metrics_addr == config.server(
                relay_tls,
                token,
            ).metrics_addr
        }),
{
}

/// A server that runs never holds a client to a limit of zero, and it holds
/// clients to a limit exactly where a number of bytes per second is configured.
pub proof fn rate_limits_are_never_zero(
    config: Config,
    relay_tls: Option<RelayTlsConfig>,
    token: Option<String>,
)
    requires
        config.error_with(relay_tls) is None,
    ensures
        config.server(relay_tls, token).relay matches Some(relay) ==> {
            &&& relay.limits.client_rx matches Some(limit) ==> limit.well_formed()
            &&& relay.limits.client_rx is Some <==> (crate::server::configured_rx(
                config.limits,
            ) matches Some(rx) && rx.bytes_per_second is Some)
        },
{
}

/// The default configuration always runs: on `[::]:80`, with metrics on
/// `[::]:9090`, over plain HTTP, without QUIC, without limits and open to every
/// node.
pub proof fn default_config_runs(token: Option<String>, node_id: NodeId)
    ensures
        !Config::initial().quic_lacks_tls(),
        crate::tls::loaded_for(Config::initial(), None),
        Config::initial().error_with(None) is None,
        ({
            let server = Config::initial().server(None, token);
            &&& server.relay matches Some(relay) && {
                &&& relay.http_bind_addr == SocketAddr::any(DEFAULT_HTTP_PORT)
                &&& relay.tls is None
                &&& relay.limits == RelayLimits {
                    accept_conn_limit: None,
                    accept_conn_burst: None,
                    client_rx: None,
                }
                &&& relay.access == AccessConfig::Everyone
                &&& relay.access.verdict(node_id) == Some(Access::Allow)
            }
            &&& server.quic is None
            &&& server.metrics_addr == Some(SocketAddr::any(DEFAULT_METRICS_PORT))
        }),
{
}

} // verus!
