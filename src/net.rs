use vstd::prelude::*;

verus! {

/// A network address as the host engine reports it.
#[derive(Copy, Clone, Debug, PartialEq, Eq, Structural)]
pub struct NetAddr {
    /// The engine's address type (loopback, broadcast, IPv4, IPv6...).
    pub kind: u16,
    /// The address bytes, big-endian; an IPv4 address takes the low four.
    pub ip: u128,
    /// The port, in host order.
    pub port: u16,
}

} // verus!
