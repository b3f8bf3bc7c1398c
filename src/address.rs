//! The address a datagram came from, which scopes templates.
use vstd::prelude::*;

verus! {

/// An IP address: IPv4 as a 32-bit number, IPv6 as a 128-bit number, both in
/// network order (the first octet is the most significant).
#[derive(Debug, Clone, Copy, PartialEq, Eq, Structural)]
pub enum IpAddress {
    V4(u32),
    V6(u128),
}

/// An IP address and a port: the exporter a datagram was received from.
#[derive(Debug, Clone, Copy, PartialEq, Eq, Structural)]
pub struct SourceAddr {
    pub ip: IpAddress,
    pub port: u16,
}

} // verus!
