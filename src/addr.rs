use vstd::prelude::*;

verus! {

/// An IPv4 address, held as its 32 bits in network order (first octet highest).
#[derive(Clone, Copy, Debug, PartialEq, Eq, Structural)]
pub struct Ipv4Addr(pub u32);

/// An IPv6 address, held as its 128 bits in network order (first segment highest).
#[derive(Clone, Copy, Debug, PartialEq, Eq, Structural)]
pub struct Ipv6Addr(pub u128);

/// An IPv4 socket address: an address and a port.
#[derive(Clone, Copy, Debug, PartialEq, Eq, Structural)]
pub struct SocketAddrV4 {
    pub ip: Ipv4Addr,
    pub port: u16,
}

impl Ipv4Addr {
    /// The address `a.b.c.d`.
    pub fn new(a: u8, b: u8, c: u8, d: u8) -> (r: Ipv4Addr)
        ensures
            r.0 as int == a as int * 0x100_0000 + b as int * 0x1_0000 + c as int * 0x100 + d as int,
    {
        Ipv4Addr((a as u32) * 0x100_0000 + (b as u32) * 0x1_0000 + (c as u32) * 0x100 + (d as u32))
    }
}

impl Ipv6Addr {
    /// The address made of eight 16-bit segments, first segment first.
    pub fn new(s0: u16, s1: u16, s2: u16, s3: u16, s4: u16, s5: u16, s6: u16, s7: u16) -> (r:
        Ipv6Addr)
        ensures
            r.0 as int == s0 as int * 0x1_0000_0000_0000_0000_0000_0000_0000
                + s1 as int * 0x1_0000_0000_0000_0000_0000_0000
                + s2 as int * 0x1_0000_0000_0000_0000_0000
                + s3 as int * 0x1_0000_0000_0000_0000
                + s4 as int * 0x1_0000_0000_0000
                + s5 as int * 0x1_0000_0000
                + s6 as int * 0x1_0000
                + s7 as int,
    {
        Ipv6Addr(
            (s0 as u128) * 0x1_0000_0000_0000_0000_0000_0000_0000
                + (s1 as u128) * 0x1_0000_0000_0000_0000_0000_0000
                + (s2 as u128) * 0x1_0000_0000_0000_0000_0000
                + (s3 as u128) * 0x1_0000_0000_0000_0000
                + (s4 as u128) * 0x1_0000_0000_0000
                + (s5 as u128) * 0x1_0000_0000
                + (s6 as u128) * 0x1_0000
                + (s7 as u128),
        )
    }
}

impl SocketAddrV4 {
    /// The socket address `ip:port`.
    pub fn new(ip: Ipv4Addr, port: u16) -> (r: SocketAddrV4)
        ensures
            r.ip == ip,
            r.port == port,
    {
        SocketAddrV4 { ip, port }
    }
}

} // verus!
