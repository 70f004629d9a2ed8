//! What a relay server runs with.

use crate::access::AccessConfig;
use crate::addr::SocketAddr;
use crate::config::{Config, ConnRate, Limits, RateLimitConfig};
use crate::error::ConfigError;
use crate::tls::RelayTlsConfig;
use vstd::prelude::*;

verus! {

/// The rate limit of a client.
#[derive(Clone, Copy, Debug, PartialEq, Eq)]
pub struct ClientRateLimit {
    /// The number of bytes allowed in a second. Never zero.
    pub bytes_per_second: u32,
    /// The number of bytes allowed in a single burst. Never zero.
    pub max_burst_bytes: Option<u32>,
}

impl ClientRateLimit {
    /// Whether this limit lets anything through.
    pub open spec fn well_formed(self) -> bool {
        self.bytes_per_second != 0 && self.max_burst_bytes != Some(0u32)
    }
}

/// The rate limits of a relay server.
#[derive(Clone, Copy, Debug, PartialEq, Eq)]
pub struct RelayLimits {
    /// The rate at which connections are accepted. Unlimited if not set.
    pub accept_conn_limit: Option<ConnRate>,
    /// The number of connections accepted in a burst. Unlimited if not set.
    pub accept_conn_burst: Option<usize>,
    /// The limit of what comes in from each client. Unlimited if not set.
    pub client_rx: Option<ClientRateLimit>,
}

/// What the relay service runs with.
#[derive(Debug)]
pub struct RelayConfig {
    /// The address of the HTTP server.
    pub http_bind_addr: SocketAddr,
    /// What the HTTPS server runs with; without it all services run on plain HTTP.
    pub tls: Option<RelayTlsConfig>,
    pub limits: RelayLimits,
    /// The capacity of the key cache.
    pub key_cache_capacity: Option<usize>,
    /// Which nodes may relay connections.
    pub access: AccessConfig,
}

/// What the QUIC server for QUIC address discovery runs with.
#[derive(Debug)]
pub struct QuicConfig {
    pub server_config: rustls::ServerConfig,
    pub bind_addr: SocketAddr,
}

/// What a server runs with. A service that is missing here does not run.
#[derive(Debug)]
pub struct RelayServerConfig {
    pub relay: Option<RelayConfig>,
    pub quic: Option<QuicConfig>,
    /// The address of the metrics server.
    pub metrics_addr: Option<SocketAddr>,
}

/// The rate limit that is configured for what comes in from clients.
pub open spec fn configured_rx(limits: Option<Limits>) -> Option<RateLimitConfig> {
    match limits {
        Some(Limits { client: Some(client), .. }) => client.rx,
        _ => None,
    }
}

impl RateLimitConfig {
    /// What is wrong with this rate limit.
    pub open spec fn error(self) -> Option<ConfigError> {
        match (self.bytes_per_second, self.max_burst_bytes) {
            (None, Some(_)) => Some(ConfigError::MissingBytesPerSecond),
            (Some(0), _) => Some(ConfigError::ZeroBytesPerSecond),
            (Some(_), Some(0)) => Some(ConfigError::ZeroMaxBurstBytes),
            _ => None,
        }
    }

    /// The limit that this is for each client: there is one exactly where a number
    /// of bytes per second is configured.
    pub open spec fn limit(self) -> Option<ClientRateLimit> {
        match self.bytes_per_second {
            Some(bytes_per_second) => Some(
                ClientRateLimit { bytes_per_second, max_burst_bytes: self.max_burst_bytes },
            ),
            None => None,
        }
    }

    /// Works out the limit that this is for each client.
    pub fn client_limit(&self) -> (result: Result<Option<ClientRateLimit>, ConfigError>)
        ensures
            match self.error() {
                Some(error) => result == Err::<Option<ClientRateLimit>, ConfigError>(error),
                None => result == Ok::<Option<ClientRateLimit>, ConfigError>(self.limit()),
            },
            result matches Ok(Some(limit)) ==> limit.well_formed(),
    {
        match (self.bytes_per_second, self.max_burst_bytes) {
            (None, Some(_)) => Err(ConfigError::MissingBytesPerSecond),
            (None, None) => Ok(None),
            (Some(bytes_per_second), max_burst_bytes) => {
                if bytes_per_second == 0 {
                    return Err(ConfigError::ZeroBytesPerSecond);
                }
                if let Some(burst) = max_burst_bytes {
                    if burst == 0 {
                        return Err(ConfigError::ZeroMaxBurstBytes);
                    }
                }
                Ok(Some(ClientRateLimit { bytes_per_second, max_burst_bytes }))
            },
        }
    }
}

/// What is wrong with the rate limits that are configured.
pub open spec fn limits_error(limits: Option<Limits>) -> Option<ConfigError> {
    match configured_rx(limits) {
        Some(rx) => rx.error(),
        None => None,
    }
}

/// The rate limits that a server with these configured limits runs with.
pub open spec fn limits_of(limits: Option<Limits>) -> RelayLimits {
    RelayLimits {
        accept_conn_limit: match limits {
            Some(limits) => limits.accept_conn_limit,
            None => None,
        },
        accept_conn_burst: match limits {
            Some(limits) => limits.accept_conn_burst,
            None => None,
        },
        client_rx: match configured_rx(limits) {
            Some(rx) => rx.limit(),
            None => None,
        },
    }
}

/// Works out the rate limits that a server runs with.
pub fn relay_limits(limits: &Option<Limits>) -> (result: Result<RelayLimits, ConfigError>)
    ensures
        match limits_error(*limits) {
            Some(error) => result == Err::<RelayLimits, ConfigError>(error),
            None => result == Ok::<RelayLimits, ConfigError>(limits_of(*limits)),
        },
        result matches Ok(made) ==> (made.client_rx matches Some(limit) ==> limit.well_formed()),
{
    match limits {
        None => Ok(
            RelayLimits { accept_conn_limit: None, accept_conn_burst: None, client_rx: None },
        ),
        Some(limits) => {
            let client_rx: Option<ClientRateLimit> = match &limits.client {
                Some(client) => match &client.rx {
                    Some(rx) => match rx.client_limit() {
                        Ok(limit) => limit,
                        Err(error) => {
                            return Err(error);
                        },
                    },
                    None => None,
                },
                None => None,
            };
            Ok(
                RelayLimits {
                    accept_conn_limit: limits.accept_conn_limit,
                    accept_conn_burst: limits.accept_conn_burst,
                    client_rx,
                },
            )
        },
    }
}

impl Config {
    /// What keeps a server from running with this configuration and with
    /// `relay_tls`, if anything does.
    pub open spec fn error_with(self, relay_tls: Option<RelayTlsConfig>) -> Option<ConfigError> {
        if self.enable_quic_addr_discovery && relay_tls is None {
            Some(ConfigError::QuicWithoutServerConfig)
        } else {
            limits_error(self.limits)
        }
    }

    /// What a server with this configuration runs with, given what it runs TLS
    /// with and the bearer token of the environment.
    pub open spec fn server(
        self,
        relay_tls: Option<RelayTlsConfig>,
        token: Option<String>,
    ) -> RelayServerConfig {
        RelayServerConfig {
            relay: if self.enable_relay {
                Some(
                    RelayConfig {
                        http_bind_addr: self.http_addr(),
                        tls: if self.http_only() {
                            None
                        } else {
                            relay_tls
                        },
                        limits: limits_of(self.limits),
                        key_cache_capacity: self.key_cache_capacity,
                        access: self.access.with_token(token),
                    },
                )
            } else {
                None
            },
            quic: match relay_tls {
                Some(tls) if self.enable_quic_addr_discovery => Some(
                    QuicConfig { server_config: tls.server_config, bind_addr: tls.quic_bind_addr },
                ),
                _ => None,
            },
            metrics_addr: if self.enable_metrics {
                Some(self.metrics_addr())
            } else {
                None
            },
        }
    }
}

/// Works out what a server runs with, given its configuration, what it runs TLS
/// with and the bearer token of the environment.
pub fn build_relay_config(
    config: Config,
    relay_tls: Option<RelayTlsConfig>,
    token: Option<String>,
) -> (result: Result<RelayServerConfig, ConfigError>)
    ensures
        match config.error_with(relay_tls) {
            Some(error) => result == Err::<RelayServerConfig, ConfigError>(error),
            None => result == Ok::<RelayServerConfig, ConfigError>(config.server(relay_tls, token)),
        },
{
    let http_only: bool = config.is_http_only();
    let mut quic: Option<QuicConfig> = None;
    if config.enable_quic_addr_discovery {
        match &relay_tls {
            Some(tls) => {
                quic = Some(
                    QuicConfig {
                        server_config: tls.server_config.clone(),
                        bind_addr: tls.quic_bind_addr,
                    },
                );
            },
            None => {
                return Err(ConfigError::QuicWithoutServerConfig);
            },
        }
    }
    let limits: RelayLimits = match relay_limits(&config.limits) {
        Ok(limits) => limits,
        Err(error) => {
            return Err(error);
        },
    };
    let metrics_addr: Option<SocketAddr> = if config.enable_metrics {
        Some(config.metrics_bind_addr())
    } else {
        None
    };
    let http_bind_addr: SocketAddr = config.http_bind_addr();
    let relay: Option<RelayConfig> = if config.enable_relay {
        Some(
            RelayConfig {
                http_bind_addr,
                // No TLS configuration is passed on if HTTPS is left unbound.
                tls: if http_only {
                    None
                } else {
                    relay_tls
                },
                limits,
                key_cache_capacity: config.key_cache_capacity,
                access: config.access.set_token(token),
            },
        )
    } else {
        None
    };
    Ok(RelayServerConfig { relay, quic, metrics_addr })
}

} // verus!
