//! What holds of the server that is made of a configuration.

use crate::access::{AccessCheck, AccessConfig};
use crate::addr::SocketAddr;
use crate::config::{Config, Limits, RateLimitConfig};
use crate::error::ConfigError;
use crate::node_id::NodeId;
use crate::server::{
    build_relay_config, relay_limits, ClientRateLimit, RelayConfig, RelayLimits, RelayServerConfig,
};
use crate::tls::RelayTlsConfig;
use vstd::prelude::*;

verus! {

/// A rate limit needs a rate, and neither its rate nor its burst may be zero: each
/// fault is told by its own error. Without a rate and a burst there is no limit, and
/// what is configured is what holds.
pub proof fn client_limit_is_what_is_configured(
    rx: RateLimitConfig,
    result: Result<Option<ClientRateLimit>, ConfigError>,
)
    requires
        call_ensures(RateLimitConfig::client_limit, (&rx,), result),
    ensures
        result is Err <==> {
            ||| rx.bytes_per_second is None && rx.max_burst_bytes is Some
            ||| rx.bytes_per_second == Some(0u32)
            ||| rx.max_burst_bytes == Some(0u32)
        },
        result matches Err(error) ==> match error {
            ConfigError::MissingBytesPerSecond => rx.bytes_per_second is None,
            ConfigError::ZeroBytesPerSecond => rx.bytes_per_second == Some(0u32),
            ConfigError::ZeroMaxBurstBytes => rx.bytes_per_second is Some && rx.bytes_per_second
                != Some(0u32),
            _ => false,
        },
        result matches Ok(limit) ==> (limit is Some <==> rx.bytes_per_second is Some),
        result matches Ok(Some(limit)) ==> Some(limit.bytes_per_second) == rx.bytes_per_second
            && limit.max_burst_bytes == rx.max_burst_bytes,
{
}

/// The limits of a server are those of its section: the two that concern accepted
/// connections stand whatever is configured for clients, and the limit of clients is
/// the one that is configured for them. Without a section there are none.
pub proof fn limits_are_those_of_the_section(
    limits: Option<Limits>,
    result: Result<RelayLimits, ConfigError>,
)
    requires
        call_ensures(relay_limits, (&limits,), result),
    ensures
        limits is None ==> result == Ok::<RelayLimits, ConfigError>(
            RelayLimits { accept_conn_limit: None, accept_conn_burst: None, client_rx: None },
        ),
        limits matches Some(section) ==> (result matches Ok(made) ==> made.accept_conn_limit
            == section.accept_conn_limit && made.accept_conn_burst == section.accept_conn_burst),
        limits matches Some(section) ==> (section.client is None ==> result is Ok
            && result->Ok_0.client_rx is None),
        limits matches Some(section) ==> (section.client matches Some(client) ==> (client.rx is None
            ==> result is Ok && result->Ok_0.client_rx is None)),
{
}

/// The limit of clients is the one that their rate limit makes by itself, and it is
/// refused with the same error.
pub proof fn limits_of_clients_are_theirs(
    section: Limits,
    rx: RateLimitConfig,
    alone: Result<Option<ClientRateLimit>, ConfigError>,
    result: Result<RelayLimits, ConfigError>,
)
    requires
        section.client matches Some(client) && client.rx == Some(rx),
        call_ensures(RateLimitConfig::client_limit, (&rx,), alone),
        call_ensures(relay_limits, (&Some(section),), result),
    ensures
        match alone {
            Ok(limit) => result matches Ok(made) && made.client_rx == limit,
            Err(error) => result == Err::<RelayLimits, ConfigError>(error),
        },
{
}

/// The limits of accepted connections and the limit of clients do not touch one
/// another: of two sections, those that agree in the one part are given the same in
/// that part.
pub proof fn limits_are_independent(
    a: Limits,
    b: Limits,
    of_a: Result<RelayLimits, ConfigError>,
    of_b: Result<RelayLimits, ConfigError>,
)
    requires
        call_ensures(relay_limits, (&Some(a),), of_a),
        call_ensures(relay_limits, (&Some(b),), of_b),
    ensures
        of_a is Ok && of_b is Ok ==> (of_a->Ok_0.accept_conn_limit == of_b->Ok_0.accept_conn_limit
            <==> a.accept_conn_limit == b.accept_conn_limit),
        of_a is Ok && of_b is Ok ==> (of_a->Ok_0.accept_conn_burst == of_b->Ok_0.accept_conn_burst
            <==> a.accept_conn_burst == b.accept_conn_burst),
        a.client == b.client ==> (of_a is Ok <==> of_b is Ok) && (of_a matches Ok(limits)
            ==> limits.client_rx == of_b->Ok_0.client_rx) && (of_a matches Err(error) ==> error
            == of_b->Err_0),
{
}

/// A server is refused exactly where QUIC address discovery is enabled without TLS,
/// or else where its rate limits are, and with their error. Otherwise the relay holds
/// to these limits.
pub proof fn server_is_refused_for_quic_or_limits(
    config: Config,
    relay_tls: Option<RelayTlsConfig>,
    token: Option<String>,
    limits: Result<RelayLimits, ConfigError>,
    result: Result<RelayServerConfig, ConfigError>,
)
    requires
        call_ensures(relay_limits, (&config.limits,), limits),
        call_ensures(build_relay_config, (config, relay_tls, token), result),
    ensures
        config.enable_quic_addr_discovery && relay_tls is None ==> result == Err::<
            RelayServerConfig,
            ConfigError,
        >(ConfigError::QuicWithoutServerConfig),
        !config.enable_quic_addr_discovery || relay_tls is Some ==> match limits {
            Err(error) => result == Err::<RelayServerConfig, ConfigError>(error),
            Ok(limits) => result matches Ok(server) && (server.relay matches Some(relay)
                ==> relay.limits == limits),
        },
{
}

/// Each service runs exactly where it is enabled, whatever else is configured.
pub proof fn services_run_where_enabled(
    config: Config,
    relay_tls: Option<RelayTlsConfig>,
    token: Option<String>,
    server: RelayServerConfig,
)
    requires
        call_ensures(
            build_relay_config,
            (config, relay_tls, token),
            Ok::<RelayServerConfig, ConfigError>(server),
        ),
    ensures
        server.relay is Some <==> config.enable_relay,
        server.quic is Some <==> config.enable_quic_addr_discovery,
        server.metrics_addr is Some <==> config.enable_metrics,
{
}

/// Each service runs on the address that is worked out for it, and the key cache has
/// the capacity that is configured, whatever TLS the server runs with.
pub proof fn services_run_on_their_addresses(
    config: Config,
    relay_tls: Option<RelayTlsConfig>,
    token: Option<String>,
    server: RelayServerConfig,
    http: SocketAddr,
    metrics: SocketAddr,
)
    requires
        call_ensures(
            build_relay_config,
            (config, relay_tls, token),
            Ok::<RelayServerConfig, ConfigError>(server),
        ),
        call_ensures(Config::http_bind_addr, (&config,), http),
        call_ensures(Config::metrics_bind_addr, (&config,), metrics),
    ensures
        server.relay matches Some(relay) ==> relay.http_bind_addr == http
            && relay.key_cache_capacity == config.key_cache_capacity,
        server.metrics_addr matches Some(addr) ==> addr == metrics,
        config.metrics_bind_addr is Some ==> server.metrics_addr == if config.enable_metrics {
            config.metrics_bind_addr
        } else {
            None
        },
        config.http_bind_addr matches Some(addr) ==> (server.relay matches Some(relay)
            ==> relay.http_bind_addr == addr),
{
}

/// The TLS that was loaded is what HTTPS and QUIC run with. The relay has it as it is,
/// unless the `tls` section leaves HTTPS unbound, and then it has none; the QUIC
/// server has its server configuration and its address either way.
pub proof fn loaded_tls_is_used_as_it_is(
    config: Config,
    relay_tls: Option<RelayTlsConfig>,
    token: Option<String>,
    server: RelayServerConfig,
)
    requires
        call_ensures(
            build_relay_config,
            (config, relay_tls, token),
            Ok::<RelayServerConfig, ConfigError>(server),
        ),
    ensures
        server.relay matches Some(relay) ==> {
            &&& config.tls is None || !config.tls->0.dangerous_http_only ==> relay.tls == relay_tls
            &&& config.tls is Some && config.tls->0.dangerous_http_only ==> relay.tls is None
        },
        server.quic matches Some(quic) ==> {
            &&& relay_tls is Some
            &&& quic.server_config == relay_tls->0.server_config
            &&& quic.bind_addr == relay_tls->0.quic_bind_addr
        },
{
}

/// The relay controls access as it is configured, over HTTPS as over plain HTTP and
/// whatever else is configured: lists stand as they are, and an endpoint keeps its
/// URL and is asked with the environment's token, or with its own if the environment
/// has none.
pub proof fn access_control_is_kept(
    config: Config,
    relay_tls: Option<RelayTlsConfig>,
    token: Option<String>,
    relay: RelayConfig,
    server: RelayServerConfig,
)
    requires
        call_ensures(
            build_relay_config,
            (config, relay_tls, token),
            Ok::<RelayServerConfig, ConfigError>(server),
        ),
        server.relay == Some(relay),
    ensures
        config.access !is Http ==> relay.access == config.access,
        relay.access is Http <==> config.access is Http,
        config.access matches AccessConfig::Http(configured) ==> (
        relay.access matches AccessConfig::Http(asked) && asked.url == configured.url
            && asked.bearer_token == if token is Some {
            token
        } else {
            configured.bearer_token
        }),
{
}

/// A node that connects to a server gets the verdict that the configuration gives it,
/// whatever TLS the server runs with and whatever the environment holds.
pub proof fn verdicts_are_kept(
    config: Config,
    relay_tls: Option<RelayTlsConfig>,
    token: Option<String>,
    server: RelayServerConfig,
    relay: RelayConfig,
    node_id: NodeId,
    configured: AccessCheck<'_>,
    served: AccessCheck<'_>,
)
    requires
        call_ensures(
            build_relay_config,
            (config, relay_tls, token),
            Ok::<RelayServerConfig, ConfigError>(server),
        ),
        server.relay == Some(relay),
        call_ensures(AccessConfig::check, (&config.access, &node_id), configured),
        call_ensures(AccessConfig::check, (&relay.access, &node_id), served),
    ensures
        relay.access.verdict(node_id) == config.access.verdict(node_id),
        served is Ask <==> configured is Ask,
        configured matches AccessCheck::Decided(access) ==> served == AccessCheck::<'_>::Decided(
            access,
        ),
        configured matches AccessCheck::Ask(request) ==> *served->Ask_0.url == *request.url,
{
}

/// What a configuration, its TLS and a token make, as contracts speak of it: the
/// relay's access control is the configured one, with the environment's token in
/// place of its own where there is one.
pub proof fn server_keeps_access_control(
    config: Config,
    relay_tls: Option<RelayTlsConfig>,
    token: Option<String>,
    node_id: NodeId,
)
    ensures
        config.server(relay_tls, token).relay matches Some(relay) ==> {
            &&& relay.access.verdict(node_id) == config.access.verdict(node_id)
            &&& config.access !is Http ==> relay.access == config.access
            &&& relay.access is Http <==> config.access is Http
            &&& config.access matches AccessConfig::Http(configured) ==> {
                &&& relay.access->Http_0.url == configured.url
                &&& relay.access->Http_0.bearer_token == if token is Some {
                    token
                } else {
                    configured.bearer_token
                }
            }
        },
{
}

/// The parts of a server do not touch one another: servers of two configurations have
/// the same in each part whose own fields agree.
pub proof fn parts_of_a_server_are_independent(
    a: Config,
    b: Config,
    tls_a: Option<RelayTlsConfig>,
    tls_b: Option<RelayTlsConfig>,
    token: Option<String>,
    server_a: RelayServerConfig,
    server_b: RelayServerConfig,
)
    requires
        call_ensures(
            build_relay_config,
            (a, tls_a, token),
            Ok::<RelayServerConfig, ConfigError>(server_a),
        ),
        call_ensures(
            build_relay_config,
            (b, tls_b, token),
            Ok::<RelayServerConfig, ConfigError>(server_b),
        ),
    ensures
        server_a.relay is Some && server_b.relay is Some ==> {
            let (relay_a, relay_b) = (server_a.relay->0, server_b.relay->0);
            &&& a.access == b.access ==> relay_a.access == relay_b.access
            &&& a.limits == b.limits ==> relay_a.limits == relay_b.limits
            &&& a.http_bind_addr == b.http_bind_addr ==> relay_a.http_bind_addr
                == relay_b.http_bind_addr
            &&& a.key_cache_capacity == b.key_cache_capacity <==> relay_a.key_cache_capacity
                == relay_b.key_cache_capacity
        },
        a.enable_metrics == b.enable_metrics && a.metrics_bind_addr == b.metrics_bind_addr
            && a.http_bind_addr == b.http_bind_addr ==> server_a.metrics_addr
            == server_b.metrics_addr,
        a.enable_quic_addr_discovery == b.enable_quic_addr_discovery && tls_a == tls_b
            ==> server_a.quic == server_b.quic,
{
}

} // verus!
