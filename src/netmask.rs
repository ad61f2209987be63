use vstd::prelude::*;

use crate::addr::{Ipv4Addr, Ipv6Addr};

verus! {

/// Why a netmask could not be applied.
#[derive(Clone, Copy, Debug, PartialEq, Eq, Structural)]
pub enum ApplyNetmaskError {
    /// The prefix length `netmask_bits` exceeds the address width `addr_len`.
    OutOfRange(u8, u8),
}

/// The 32-bit mask whose `n` highest bits are set.
pub open spec fn mask_v4(n: nat) -> u32 {
    if n == 0 {
        0
    } else {
        0xffff_ffffu32 << ((32 - n) as u32)
    }
}

/// The 128-bit mask whose `n` highest bits are set.
pub open spec fn mask_v6(n: nat) -> u128 {
    if n == 0 {
        0
    } else {
        0xffff_ffff_ffff_ffff_ffff_ffff_ffff_ffffu128 << ((128 - n) as u128)
    }
}

/// Address types that a netmask can be applied to.
pub trait ApplyNetmask: Sized {
    /// The width of the address in bits.
    spec fn address_bits() -> nat;

    /// The address with its first `netmask_bits` bits kept and all others zero.
    spec fn masked(self, netmask_bits: nat) -> Self;

    /// Retain the first `netmask_bits` bits of the address, setting all other bits to zero.
    fn apply_netmask(self, netmask_bits: u8) -> (r: Result<Self, ApplyNetmaskError>)
        ensures
            netmask_bits <= Self::address_bits() ==> r == Ok::<Self, ApplyNetmaskError>(
                self.masked(netmask_bits as nat),
            ),
            netmask_bits > Self::address_bits() ==> r == Err::<Self, ApplyNetmaskError>(
                ApplyNetmaskError::OutOfRange(netmask_bits, Self::address_bits() as u8),
            ),
    ;
}

impl ApplyNetmask for Ipv4Addr {
    open spec fn address_bits() -> nat {
        32
    }

    open spec fn masked(self, netmask_bits: nat) -> Ipv4Addr {
        Ipv4Addr(self.0 & mask_v4(netmask_bits))
    }

    fn apply_netmask(self, netmask_bits: u8) -> (r: Result<Ipv4Addr, ApplyNetmaskError>) {
        if netmask_bits > 32 {
            return Err(ApplyNetmaskError::OutOfRange(netmask_bits, 32));
        }
        let mask: u32 = if netmask_bits == 0 {
            0
        } else {
            0xffff_ffffu32 << (32 - netmask_bits) as u32
        };
        Ok(Ipv4Addr(self.0 & mask))
    }
}

impl ApplyNetmask for Ipv6Addr {
    open spec fn address_bits() -> nat {
        128
    }

    open spec fn masked(self, netmask_bits: nat) -> Ipv6Addr {
        Ipv6Addr(self.0 & mask_v6(netmask_bits))
    }

    fn apply_netmask(self, netmask_bits: u8) -> (r: Result<Ipv6Addr, ApplyNetmaskError>) {
        if netmask_bits > 128 {
            return Err(ApplyNetmaskError::OutOfRange(netmask_bits, 128));
        }
        let mask: u128 = if netmask_bits == 0 {
            0
        } else {
            0xffff_ffff_ffff_ffff_ffff_ffff_ffff_ffffu128 << (128 - netmask_bits) as u128
        };
        Ok(Ipv6Addr(self.0 & mask))
    }
}

/// Masking an IPv4 address twice with one prefix length gives what masking once gives.
pub proof fn lemma_mask_v4_idempotent(a: Ipv4Addr, netmask_bits: nat)
    requires
        netmask_bits <= 32,
    ensures
        a.masked(netmask_bits).masked(netmask_bits) == a.masked(netmask_bits),
{
    let m = mask_v4(netmask_bits);
    let x = a.0;
    assert((x & m) & m == x & m) by (bit_vector);
}

/// Masking an IPv6 address twice with one prefix length gives what masking once gives.
pub proof fn lemma_mask_v6_idempotent(a: Ipv6Addr, netmask_bits: nat)
    requires
        netmask_bits <= 128,
    ensures
        a.masked(netmask_bits).masked(netmask_bits) == a.masked(netmask_bits),
{
    let m = mask_v6(netmask_bits);
    let x = a.0;
    assert((x & m) & m == x & m) by (bit_vector);
}

} // verus!
