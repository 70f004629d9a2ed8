//! The defaults that a configuration file leaves to the relay.
//!
//! These are the values of fields that the file does not name. Defaults that
//! depend on other fields are worked out where they are used.

use vstd::prelude::*;

verus! {

/// Whether the relay server runs.
pub fn enable_relay() -> (enabled: bool)
    ensures
        enabled,
{
    true
}

/// Whether QUIC address discovery runs.
pub fn enable_quic_addr_discovery() -> (enabled: bool)
    ensures
        !enabled,
{
    false
}

/// Whether the metrics server runs.
pub fn enable_metrics() -> (enabled: bool)
    ensures
        enabled,
{
    true
}

/// Whether LetsEncrypt certificates come from its production server.
pub fn prod_tls() -> (production: bool)
    ensures
        production,
{
    true
}

/// Whether HTTPS is left unbound although TLS is configured.
pub fn dangerous_http_only() -> (http_only: bool)
    ensures
        !http_only,
{
    false
}

} // verus!
