//! What can be wrong with a configuration.

use vstd::prelude::*;

verus! {

/// A configuration that the relay refuses to run with.
#[derive(Clone, Copy, Debug, PartialEq, Eq, Structural)]
pub enum ConfigError {
    /// The configuration path names something that is not a file.
    NotAFile,
    /// QUIC address discovery is enabled without a `tls` section.
    QuicWithoutTls,
    /// QUIC address discovery is enabled, but no TLS configuration was loaded.
    QuicWithoutServerConfig,
    /// A LetsEncrypt certificate is asked for without a hostname.
    MissingHostname,
    /// A LetsEncrypt certificate is asked for without a contact address.
    MissingContact,
    /// A burst size is given for a rate limiter that has no rate.
    MissingBytesPerSecond,
    /// The rate of the rate limiter is zero.
    ZeroBytesPerSecond,
    /// The burst size of the rate limiter is zero.
    ZeroMaxBurstBytes,
}

impl ConfigError {
    /// The text that tells an operator what is wrong.
    pub open spec fn text(self) -> Seq<char> {
        match self {
            ConfigError::NotAFile => "config-path must be a file"@,
            ConfigError::QuicWithoutTls =>
                "TLS must be configured in order to spawn a QUIC endpoint"@,
            ConfigError::QuicWithoutServerConfig =>
                "Must have a valid TLS configuration to enable a QUIC server for QUIC address discovery"@,
            ConfigError::MissingHostname => "LetsEncrypt needs a hostname"@,
            ConfigError::MissingContact => "LetsEncrypt needs a contact email"@,
            ConfigError::MissingBytesPerSecond =>
                "bytes_per_seconds must be specified to enable the rate-limiter"@,
            ConfigError::ZeroBytesPerSecond => "bytes_per_second must be non-zero u32"@,
            ConfigError::ZeroMaxBurstBytes => "max_burst_bytes must be non-zero u32"@,
        }
    }

    /// Returns the text that tells an operator what is wrong.
    pub fn message(&self) -> (message: &'static str)
        ensures
            message@ == self.text(),
    {
        match self {
            ConfigError::NotAFile => "config-path must be a file",
            ConfigError::QuicWithoutTls =>
                "TLS must be configured in order to spawn a QUIC endpoint",
            ConfigError::QuicWithoutServerConfig =>
                "Must have a valid TLS configuration to enable a QUIC server for QUIC address discovery",
            ConfigError::MissingHostname => "LetsEncrypt needs a hostname",
            ConfigError::MissingContact => "LetsEncrypt needs a contact email",
            ConfigError::MissingBytesPerSecond =>
                "bytes_per_seconds must be specified to enable the rate-limiter",
            ConfigError::ZeroBytesPerSecond => "bytes_per_second must be non-zero u32",
            ConfigError::ZeroMaxBurstBytes => "max_burst_bytes must be non-zero u32",
        }
    }
}

} // verus!
