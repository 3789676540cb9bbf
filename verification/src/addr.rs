use vstd::prelude::*;

verus! {

/// A transport address (a relay server, a granted relay address, or a
/// counterpart), held as plain integers: the IPv4 address as one 32-bit
/// value, the IPv6 address as its high and low 64-bit halves, the port as is.
#[derive(Clone, Copy, PartialEq, Eq, Structural, Debug)]
pub enum TransportAddr {
    V4 { ip: u32, port: u16 },
    V6 { ip_hi: u64, ip_lo: u64, port: u16 },
}

} // verus!
