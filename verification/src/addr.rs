//! Socket addresses as the proxy reads and hands them around.

use vstd::prelude::*;

verus! {

/// The TCP port of an SSH server when nothing else is configured.
pub const SSH_PORT: u16 = 22;

/// An IP socket address: the address family, the address as one big-endian
/// number (the first octet or segment in the highest bits) and the port (for
/// IPv6 also the flow label and the scope id).
#[derive(Clone, Copy, Debug, PartialEq, Eq, Hash, Structural)]
pub enum SockAddr {
    V4 { ip: u32, port: u16 },
    V6 { ip: u128, port: u16, flowinfo: u32, scope_id: u32 },
}

/// The number whose big-endian octets are `o`.
pub open spec fn ipv4_bits(o: [u8; 4]) -> int {
    o[0] * 0x100_0000 + o[1] * 0x1_0000 + o[2] * 0x100 + o[3]
}

impl SockAddr {
    pub open spec fn port_of(self) -> u16 {
        match self {
            SockAddr::V4 { port, .. } => port,
            SockAddr::V6 { port, .. } => port,
        }
    }

    /// The IPv4 socket address `o[0].o[1].o[2].o[3]:port`.
    pub fn v4(o: [u8; 4], port: u16) -> (a: SockAddr)
        ensures
            a matches SockAddr::V4 { ip, port: p } && ip == ipv4_bits(o) && p == port,
    {
        let ip: u32 = (o[0] as u32) * 0x100_0000 + (o[1] as u32) * 0x1_0000 + (o[2] as u32) * 0x100
            + (o[3] as u32);
        SockAddr::V4 { ip, port }
    }

    /// The IPv6 socket address with address bits `ip`, flow label 0 and scope id 0.
    pub fn v6(ip: u128, port: u16) -> (a: SockAddr)
        ensures
            a == (SockAddr::V6 { ip, port, flowinfo: 0, scope_id: 0 }),
    {
        SockAddr::V6 { ip, port, flowinfo: 0, scope_id: 0 }
    }

    /// The port of the address.
    pub fn port(&self) -> (p: u16)
        ensures
            p == self.port_of(),
    {
        match self {
            SockAddr::V4 { port, .. } => *port,
            SockAddr::V6 { port, .. } => *port,
        }
    }

    /// Whether the address is an IPv6 one.
    pub fn is_ipv6(&self) -> (b: bool)
        ensures
            b == (*self is V6),
    {
        match self {
            SockAddr::V4 { .. } => false,
            SockAddr::V6 { .. } => true,
        }
    }
}

} // verus!
