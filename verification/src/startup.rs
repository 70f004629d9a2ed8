//! From the command line to the configuration that the server runs with.

use crate::addr::{SocketAddr, DEV_MODE_HTTP_PORT};
use crate::config::{Config, TlsConfig};
use crate::error::ConfigError;
use vstd::prelude::*;

verus! {

/// What stands at a path.
#[derive(Clone, Copy, Debug, PartialEq, Eq, Structural)]
pub enum PathState {
    /// Nothing.
    Missing,
    /// A file.
    File,
    /// Something that is not a file.
    Other,
}

/// Where the configuration comes from.
#[derive(Clone, Copy, Debug, PartialEq, Eq, Structural)]
pub enum ConfigSource {
    /// It is the default configuration.
    Defaults,
    /// It is the default configuration, which is written to the configuration
    /// path.
    NewFile,
    /// It is read from the file at the configuration path.
    File,
}

/// Says where the configuration comes from, given what stands at the
/// configuration path; `None` if no path is given.
pub fn config_source(path: Option<PathState>) -> (result: Result<ConfigSource, ConfigError>)
    ensures
        match path {
            None => result == Ok::<ConfigSource, ConfigError>(ConfigSource::Defaults),
            Some(PathState::Missing) => result == Ok::<ConfigSource, ConfigError>(
                ConfigSource::NewFile,
            ),
            Some(PathState::File) => result == Ok::<ConfigSource, ConfigError>(ConfigSource::File),
            Some(PathState::Other) => result == Err::<ConfigSource, ConfigError>(
                ConfigError::NotAFile,
            ),
        },
{
    match path {
        None => Ok(ConfigSource::Defaults),
        Some(PathState::Missing) => Ok(ConfigSource::NewFile),
        Some(PathState::File) => Ok(ConfigSource::File),
        Some(PathState::Other) => Err(ConfigError::NotAFile),
    }
}

impl Config {
    /// This configuration in development mode: HTTPS is left unbound, and the HTTP
    /// server runs on `[::]:3340` unless it is given another address.
    pub open spec fn in_dev_mode(self) -> Config {
        Config {
            tls: match self.tls {
                Some(tls) => Some(TlsConfig { dangerous_http_only: true, ..tls }),
                None => None,
            },
            http_bind_addr: match self.http_bind_addr {
                Some(addr) => Some(addr),
                None => Some(SocketAddr::any(DEV_MODE_HTTP_PORT)),
            },
            ..self
        }
    }

    /// Whether QUIC address discovery is enabled without the TLS that it needs.
    pub open spec fn quic_lacks_tls(self) -> bool {
        self.enable_quic_addr_discovery && self.tls is None
    }

    /// Checks this configuration, and adapts it to development mode if `dev` is
    /// set.
    pub fn prepare(&mut self, dev: bool) -> (result: Result<(), ConfigError>)
        ensures
            old(self).quic_lacks_tls() ==> result == Err::<(), ConfigError>(
                ConfigError::QuicWithoutTls,
            ) && *final(self) == *old(self),
            !old(self).quic_lacks_tls() ==> result is Ok && *final(self) == if dev {
                old(self).in_dev_mode()
            } else {
                *old(self)
            },
    {
        if self.enable_quic_addr_discovery && self.tls.is_none() {
            return Err(ConfigError::QuicWithoutTls);
        }
        if dev {
            // HTTPS is not used in development mode, even when TLS is configured.
            if let Some(tls) = &mut self.tls {
                tls.dangerous_http_only = true;
            }
            if self.http_bind_addr.is_none() {
                self.http_bind_addr = Some(SocketAddr::unspecified(DEV_MODE_HTTP_PORT));
            }
        }
        Ok(())
    }
}

} // verus!
