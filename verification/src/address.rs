//! Network addresses as plain values.
use vstd::prelude::*;

verus! {

/// An IP address: version 4 as its 32-bit value, version 6 as its 128-bit value
/// (most significant byte first, as written).
#[derive(Clone, Copy, Debug, PartialEq, Eq, Hash, Structural)]
pub enum IpAddress {
    V4(u32),
    V6(u128),
}

/// An IP address together with a port; for a version 6 address also its
/// flow information and scope id (both 0 for version 4).
#[derive(Clone, Copy, Debug, PartialEq, Eq, Hash, Structural)]
pub struct SocketAddress {
    pub ip: IpAddress,
    pub port: u16,
    pub flowinfo: u32,
    pub scope_id: u32,
}

impl SocketAddress {
    /// The address of `ip` and `port`, with no flow information and no scope.
    pub fn new(ip: IpAddress, port: u16) -> (r: SocketAddress)
        ensures
            r == (SocketAddress { ip, port, flowinfo: 0, scope_id: 0 }),
    {
        SocketAddress { ip, port, flowinfo: 0, scope_id: 0 }
    }
}

} // verus!
