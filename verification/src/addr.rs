//! Socket addresses as plain values, and the ports of the relay's services.

use vstd::prelude::*;

verus! {

/// The port of the HTTP server.
pub const DEFAULT_HTTP_PORT: u16 = 80;

/// The port of the HTTPS server.
pub const DEFAULT_HTTPS_PORT: u16 = 443;

/// The port of the metrics server.
pub const DEFAULT_METRICS_PORT: u16 = 9090;

/// The port of the QUIC server: "QUIC" typed on a phone keypad.
pub const DEFAULT_RELAY_QUIC_PORT: u16 = 7842;

/// The port of the HTTP server in development mode.
pub const DEV_MODE_HTTP_PORT: u16 = 3340;

/// An IP address, as the big-endian number that its octets spell.
#[derive(Clone, Copy, Debug, PartialEq, Eq, Structural)]
pub enum IpAddr {
    V4(u32),
    V6(u128),
}

/// The address of a socket.
#[allow(inconsistent_fields)]
#[derive(Clone, Copy, Debug, PartialEq, Eq, Structural)]
pub enum SocketAddr {
    V4 { ip: u32, port: u16 },
    V6 { ip: u128, port: u16, flowinfo: u32, scope_id: u32 },
}

impl SocketAddr {
    /// The socket `port` of `ip`, with no flow information and no scope.
    pub open spec fn at(ip: IpAddr, port: u16) -> SocketAddr {
        match ip {
            IpAddr::V4(ip) => SocketAddr::V4 { ip, port },
            IpAddr::V6(ip) => SocketAddr::V6 { ip, port, flowinfo: 0, scope_id: 0 },
        }
    }

    /// The IP address of this socket.
    pub open spec fn ip_part(self) -> IpAddr {
        match self {
            SocketAddr::V4 { ip, .. } => IpAddr::V4(ip),
            SocketAddr::V6 { ip, .. } => IpAddr::V6(ip),
        }
    }

    /// The port of this socket.
    pub open spec fn port_part(self) -> u16 {
        match self {
            SocketAddr::V4 { port, .. } => port,
            SocketAddr::V6 { port, .. } => port,
        }
    }

    /// The socket `[::]:port`, on every interface of the machine.
    pub open spec fn any(port: u16) -> SocketAddr {
        SocketAddr::at(IpAddr::V6(0), port)
    }

    /// Makes the socket address of `port` on `ip`.
    pub fn new(ip: IpAddr, port: u16) -> (addr: SocketAddr)
        ensures
            addr == SocketAddr::at(ip, port),
    {
        match ip {
            IpAddr::V4(ip) => SocketAddr::V4 { ip, port },
            IpAddr::V6(ip) => SocketAddr::V6 { ip, port, flowinfo: 0, scope_id: 0 },
        }
    }

    /// Makes the socket address `[::]:port`.
    pub fn unspecified(port: u16) -> (addr: SocketAddr)
        ensures
            addr == SocketAddr::any(port),
    {
        SocketAddr::new(IpAddr::V6(0), port)
    }

    /// Returns the IP address of this socket.
    pub fn ip(&self) -> (ip: IpAddr)
        ensures
            ip == self.ip_part(),
    {
        match *self {
            SocketAddr::V4 { ip, .. } => IpAddr::V4(ip),
            SocketAddr::V6 { ip, .. } => IpAddr::V6(ip),
        }
    }
}

/// An address made of an IP address and a port gives both back.
pub proof fn address_keeps_its_parts(ip: IpAddr, port: u16)
    ensures
        SocketAddr::at(ip, port).ip_part() == ip,
        SocketAddr::at(ip, port).port_part() == port,
{
}

} // verus!
