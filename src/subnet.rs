use vstd::prelude::*;

use crate::addr::{Ipv4Addr, Ipv6Addr};
use crate::netmask::{ApplyNetmask, ApplyNetmaskError};

verus! {

/// Why `Ipv4Subnet::new` refused its arguments.
#[derive(Clone, Copy, Debug, PartialEq, Eq, Structural)]
pub enum Ipv4SubnetNewError {
    /// The prefix length is above 32.
    NetmaskOutOfRange { netmask_bits: u8 },
    /// The base address has ones outside the prefix.
    TrailingOnes { base_addr: Ipv4Addr, netmask_bits: u8 },
}

/// Why `Ipv6Subnet::new` refused its arguments.
#[derive(Clone, Copy, Debug, PartialEq, Eq, Structural)]
pub enum Ipv6SubnetNewError {
    /// The prefix length is above 128.
    NetmaskOutOfRange { netmask_bits: u8 },
    /// The base address has ones outside the prefix.
    TrailingOnes { base_addr: Ipv6Addr, netmask_bits: u8 },
}

/// A range of IPv4 addresses: a base address and a prefix length, with the
/// base address zero past the prefix.
#[derive(Clone, Copy, Debug, PartialEq, Eq, Structural)]
pub struct Ipv4Subnet {
    base_addr: Ipv4Addr,
    netmask_bits: u8,
}

/// A range of IPv6 addresses: a base address and a prefix length, with the
/// base address zero past the prefix.
#[derive(Clone, Copy, Debug, PartialEq, Eq, Structural)]
pub struct Ipv6Subnet {
    base_addr: Ipv6Addr,
    netmask_bits: u8,
}

/// `a` lies in the IPv4 range with base `base` and prefix length `bits`.
pub open spec fn in_subnet_v4(a: Ipv4Addr, base: Ipv4Addr, bits: nat) -> bool {
    a.masked(bits) == base
}

/// `a` lies in the IPv6 range with base `base` and prefix length `bits`.
pub open spec fn in_subnet_v6(a: Ipv6Addr, base: Ipv6Addr, bits: nat) -> bool {
    a.masked(bits) == base
}

impl Ipv4Subnet {
    #[verifier::type_invariant]
    spec fn well_formed(self) -> bool {
        &&& self.netmask_bits <= 32
        &&& self.base_addr.masked(self.netmask_bits as nat) == self.base_addr
    }

    /// The base address of the range.
    pub closed spec fn base(self) -> Ipv4Addr {
        self.base_addr
    }

    /// The prefix length of the range.
    pub closed spec fn prefix(self) -> nat {
        self.netmask_bits as nat
    }

    /// Create a subnet with the given base address and netmask prefix length.
    pub fn new(base_addr: Ipv4Addr, netmask_bits: u8) -> (r: Result<Ipv4Subnet, Ipv4SubnetNewError>)
        ensures
            netmask_bits > 32 ==> r == Err::<Ipv4Subnet, Ipv4SubnetNewError>(
                Ipv4SubnetNewError::NetmaskOutOfRange { netmask_bits },
            ),
            netmask_bits <= 32 && base_addr.masked(netmask_bits as nat) != base_addr ==> r == Err::<
                Ipv4Subnet,
                Ipv4SubnetNewError,
            >(Ipv4SubnetNewError::TrailingOnes { base_addr, netmask_bits }),
            netmask_bits <= 32 && base_addr.masked(netmask_bits as nat) == base_addr ==> r is Ok
                && r->Ok_0.base() == base_addr && r->Ok_0.prefix() == netmask_bits as nat,
    {
        let masked = match base_addr.apply_netmask(netmask_bits) {
            Ok(masked) => masked,
            Err(ApplyNetmaskError::OutOfRange(n, _)) => {
                return Err(Ipv4SubnetNewError::NetmaskOutOfRange { netmask_bits: n });
            },
        };
        if masked != base_addr {
            return Err(Ipv4SubnetNewError::TrailingOnes { base_addr, netmask_bits });
        }
        Ok(Ipv4Subnet { base_addr, netmask_bits })
    }

    /// The base address of the range.
    pub fn base_addr(&self) -> (r: Ipv4Addr)
        ensures
            r == self.base(),
    {
        self.base_addr
    }

    /// The prefix length of the range.
    pub fn netmask_bits(&self) -> (r: u8)
        ensures
            r as nat == self.prefix(),
    {
        self.netmask_bits
    }

    /// Test whether the subnet contains the given address.
    pub fn contains(&self, addr: &Ipv4Addr) -> (r: bool)
        ensures
            r == in_subnet_v4(*addr, self.base(), self.prefix()),
    {
        proof {
            use_type_invariant(self);
        }
        match addr.apply_netmask(self.netmask_bits) {
            Ok(masked) => masked == self.base_addr,
            Err(_) => false,
        }
    }

    /// The loopback range 127.0.0.0/8.
    pub fn loopback() -> (r: Ipv4Subnet)
        ensures
            r.base() == Ipv4Addr(0x7f00_0000),
            r.prefix() == 8,
    {
        assert(0x7f00_0000u32 & (0xffff_ffffu32 << 24u32) == 0x7f00_0000u32) by (bit_vector);
        Ipv4Subnet { base_addr: Ipv4Addr(0x7f00_0000), netmask_bits: 8 }
    }

    /// The link-local range 169.254.0.0/16.
    pub fn link_local() -> (r: Ipv4Subnet)
        ensures
            r.base() == Ipv4Addr(0xa9fe_0000),
            r.prefix() == 16,
    {
        assert(0xa9fe_0000u32 & (0xffff_ffffu32 << 16u32) == 0xa9fe_0000u32) by (bit_vector);
        Ipv4Subnet { base_addr: Ipv4Addr(0xa9fe_0000), netmask_bits: 16 }
    }

    /// The multicast range 224.0.0.0/4.
    pub fn multicast() -> (r: Ipv4Subnet)
        ensures
            r.base() == Ipv4Addr(0xe000_0000),
            r.prefix() == 4,
    {
        assert(0xe000_0000u32 & (0xffff_ffffu32 << 28u32) == 0xe000_0000u32) by (bit_vector);
        Ipv4Subnet { base_addr: Ipv4Addr(0xe000_0000), netmask_bits: 4 }
    }
}

impl Ipv6Subnet {
    #[verifier::type_invariant]
    spec fn well_formed(self) -> bool {
        &&& self.netmask_bits <= 128
        &&& self.base_addr.masked(self.netmask_bits as nat) == self.base_addr
    }

    /// The base address of the range.
    pub closed spec fn base(self) -> Ipv6Addr {
        self.base_addr
    }

    /// The prefix length of the range.
    pub closed spec fn prefix(self) -> nat {
        self.netmask_bits as nat
    }

    /// Create a subnet with the given base address and netmask prefix length.
    pub fn new(base_addr: Ipv6Addr, netmask_bits: u8) -> (r: Result<Ipv6Subnet, Ipv6SubnetNewError>)
        ensures
            netmask_bits > 128 ==> r == Err::<Ipv6Subnet, Ipv6SubnetNewError>(
                Ipv6SubnetNewError::NetmaskOutOfRange { netmask_bits },
            ),
            netmask_bits <= 128 && base_addr.masked(netmask_bits as nat) != base_addr ==> r == Err::<
                Ipv6Subnet,
                Ipv6SubnetNewError,
            >(Ipv6SubnetNewError::TrailingOnes { base_addr, netmask_bits }),
            netmask_bits <= 128 && base_addr.masked(netmask_bits as nat) == base_addr ==> r is Ok
                && r->Ok_0.base() == base_addr && r->Ok_0.prefix() == netmask_bits as nat,
    {
        let masked = match base_addr.apply_netmask(netmask_bits) {
            Ok(masked) => masked,
            Err(ApplyNetmaskError::OutOfRange(n, _)) => {
                return Err(Ipv6SubnetNewError::NetmaskOutOfRange { netmask_bits: n });
            },
        };
        if masked != base_addr {
            return Err(Ipv6SubnetNewError::TrailingOnes { base_addr, netmask_bits });
        }
        Ok(Ipv6Subnet { base_addr, netmask_bits })
    }

    /// The base address of the range.
    pub fn base_addr(&self) -> (r: Ipv6Addr)
        ensures
            r == self.base(),
    {
        self.base_addr
    }

    /// The prefix length of the range.
    pub fn netmask_bits(&self) -> (r: u8)
        ensures
            r as nat == self.prefix(),
    {
        self.netmask_bits
    }

    /// Test whether the subnet contains the given address.
    pub fn contains(&self, addr: &Ipv6Addr) -> (r: bool)
        ensures
            r == in_subnet_v6(*addr, self.base(), self.prefix()),
    {
        proof {
            use_type_invariant(self);
        }
        match addr.apply_netmask(self.netmask_bits) {
            Ok(masked) => masked == self.base_addr,
            Err(_) => false,
        }
    }

    /// The loopback range ::1/128.
    pub fn loopback() -> (r: Ipv6Subnet)
        ensures
            r.base() == Ipv6Addr(1),
            r.prefix() == 128,
    {
        assert(1u128 & (0xffff_ffff_ffff_ffff_ffff_ffff_ffff_ffffu128 << 0u128) == 1u128)
            by (bit_vector);
        Ipv6Subnet { base_addr: Ipv6Addr(1), netmask_bits: 128 }
    }

    /// The link-local range fe80::/10.
    pub fn link_local() -> (r: Ipv6Subnet)
        ensures
            r.base() == Ipv6Addr(0xfe80_0000_0000_0000_0000_0000_0000_0000),
            r.prefix() == 10,
    {
        assert(0xfe80_0000_0000_0000_0000_0000_0000_0000u128 & (
        0xffff_ffff_ffff_ffff_ffff_ffff_ffff_ffffu128 << 118u128)
            == 0xfe80_0000_0000_0000_0000_0000_0000_0000u128) by (bit_vector);
        Ipv6Subnet { base_addr: Ipv6Addr(0xfe80_0000_0000_0000_0000_0000_0000_0000), netmask_bits: 10 }
    }

    /// The multicast range ff00::/8.
    pub fn multicast() -> (r: Ipv6Subnet)
        ensures
            r.base() == Ipv6Addr(0xff00_0000_0000_0000_0000_0000_0000_0000),
            r.prefix() == 8,
    {
        assert(0xff00_0000_0000_0000_0000_0000_0000_0000u128 & (
        0xffff_ffff_ffff_ffff_ffff_ffff_ffff_ffffu128 << 120u128)
            == 0xff00_0000_0000_0000_0000_0000_0000_0000u128) by (bit_vector);
        Ipv6Subnet { base_addr: Ipv6Addr(0xff00_0000_0000_0000_0000_0000_0000_0000), netmask_bits: 8 }
    }
}

} // verus!
