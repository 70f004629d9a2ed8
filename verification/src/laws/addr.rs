//! What holds of addresses.

use crate::addr::{IpAddr, SocketAddr};
use crate::config::{Config, TlsConfig};
use vstd::prelude::*;

verus! {

/// Whether `addr` is the socket `port` on the IP address of `of`, without flow
/// information and without a scope.
pub open spec fn is_port_on(addr: SocketAddr, port: u16, of: SocketAddr) -> bool {
    match (of, addr) {
        (SocketAddr::V4 { ip: theirs, .. }, SocketAddr::V4 { ip, port: own }) => ip == theirs && own
            == port,
        (
            SocketAddr::V6 { ip: theirs, .. },
            SocketAddr::V6 { ip, port: own, flowinfo, scope_id },
        ) => ip == theirs && own == port && flowinfo == 0 && scope_id == 0,
        _ => false,
    }
}

/// An address that is made of an IP address and a port is of the same family, and
/// holds these two and nothing else.
pub proof fn made_address_holds_its_parts(ip: IpAddr, port: u16, addr: SocketAddr)
    requires
        call_ensures(SocketAddr::new, (ip, port), addr),
    ensures
        addr is V4 <==> ip is V4,
        addr matches SocketAddr::V4 { ip: octets, port: own } ==> ip == IpAddr::V4(octets) && own
            == port,
        addr matches SocketAddr::V6 { ip: octets, port: own, flowinfo, scope_id } ==> ip
            == IpAddr::V6(octets) && own == port && flowinfo == 0 && scope_id == 0,
{
}

/// The address that is made of the IP address of another, and of a port, is that
/// port on the other's IP address.
pub proof fn ip_of_an_address_stays(of: SocketAddr, port: u16, ip: IpAddr, addr: SocketAddr)
    requires
        call_ensures(SocketAddr::ip, (&of,), ip),
        call_ensures(SocketAddr::new, (ip, port), addr),
    ensures
        is_port_on(addr, port, of),
{
}

/// The unspecified address is the IPv6 address zero, whatever the port.
pub proof fn unspecified_address_is_zero(port: u16, addr: SocketAddr)
    requires
        call_ensures(SocketAddr::unspecified, (port,), addr),
    ensures
        addr matches SocketAddr::V6 { ip, port: own, flowinfo, scope_id } && ip == 0 && own == port
            && flowinfo == 0 && scope_id == 0,
{
}

/// An address that is configured for a server stands, whatever else is configured.
pub proof fn configured_addresses_stand(
    config: Config,
    tls: TlsConfig,
    http: SocketAddr,
    metrics: SocketAddr,
    https: SocketAddr,
    quic: SocketAddr,
)
    requires
        call_ensures(Config::http_bind_addr, (&config,), http),
        call_ensures(Config::metrics_bind_addr, (&config,), metrics),
        call_ensures(TlsConfig::https_bind_addr, (&tls, &config), https),
        call_ensures(TlsConfig::quic_bind_addr, (&tls, &config), quic),
    ensures
        config.http_bind_addr matches Some(addr) ==> http == addr,
        config.metrics_bind_addr matches Some(addr) ==> metrics == addr,
        tls.https_bind_addr matches Some(addr) ==> https == addr,
        tls.quic_bind_addr matches Some(addr) ==> quic == addr,
{
}

/// An address that is not configured is that of another server, on another port:
/// the metrics server and the HTTPS server go by the HTTP server, and the QUIC
/// server by the HTTPS server. The HTTP server itself is then on port 80 of every
/// interface.
pub proof fn missing_addresses_follow_another(
    config: Config,
    tls: TlsConfig,
    http: SocketAddr,
    metrics: SocketAddr,
    https: SocketAddr,
    quic: SocketAddr,
)
    requires
        call_ensures(Config::http_bind_addr, (&config,), http),
        call_ensures(Config::metrics_bind_addr, (&config,), metrics),
        call_ensures(TlsConfig::https_bind_addr, (&tls, &config), https),
        call_ensures(TlsConfig::quic_bind_addr, (&tls, &config), quic),
    ensures
        config.http_bind_addr is None ==> http == (SocketAddr::V6 {
            ip: 0,
            port: 80,
            flowinfo: 0,
            scope_id: 0,
        }),
        config.metrics_bind_addr is None ==> is_port_on(metrics, 9090, http),
        tls.https_bind_addr is None ==> is_port_on(https, 443, http),
        tls.quic_bind_addr is None ==> is_port_on(quic, 7842, https),
{
}

/// The addresses of a configuration alone, as contracts speak of them: what is
/// configured stands, and what is not goes by another server.
pub proof fn addresses_of_a_configuration(config: Config, tls: TlsConfig)
    ensures
        config.http_bind_addr matches Some(addr) ==> config.http_addr() == addr,
        config.http_bind_addr is None ==> config.http_addr() == (SocketAddr::V6 {
            ip: 0,
            port: 80,
            flowinfo: 0,
            scope_id: 0,
        }),
        config.metrics_bind_addr matches Some(addr) ==> config.metrics_addr() == addr,
        config.metrics_bind_addr is None ==> is_port_on(
            config.metrics_addr(),
            9090,
            config.http_addr(),
        ),
        tls.https_bind_addr matches Some(addr) ==> tls.https_addr(config) == addr,
        tls.https_bind_addr is None ==> is_port_on(tls.https_addr(config), 443, config.http_addr()),
        tls.quic_bind_addr matches Some(addr) ==> tls.quic_addr(config) == addr,
        tls.quic_bind_addr is None ==> is_port_on(
            tls.quic_addr(config),
            7842,
            tls.https_addr(config),
        ),
{
}

} // verus!
