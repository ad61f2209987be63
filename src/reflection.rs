use vstd::prelude::*;

use crate::addr::{Ipv4Addr, SocketAddrV4};
use crate::wire::{be16_bytes, be16_value, be32_bytes, be32_value, push_be16, push_be32, read_be16, read_be32};

verus! {

/// A reflection server's answer: the address it saw the request come
/// from, in four bytes, then the port in two, most significant first.
pub open spec fn reflection_bytes(observed: SocketAddrV4) -> Seq<u8> {
    be32_bytes(observed.ip.0 as nat) + be16_bytes(observed.port as nat)
}

/// The answer a reflection server sends to a request that came from `observed`.
pub fn encode_reflection(observed: SocketAddrV4) -> (r: Vec<u8>)
    ensures
        r@ == reflection_bytes(observed),
{
    let mut out: Vec<u8> = Vec::new();
    push_be32(&mut out, observed.ip.0);
    push_be16(&mut out, observed.port);
    assert(out@ =~= reflection_bytes(observed));
    out
}

/// The address a reflection server reported, or `None` where `bytes` is
/// not six bytes long.
pub fn decode_reflection(bytes: &Vec<u8>) -> (r: Option<SocketAddrV4>)
    ensures
        bytes@.len() != 6 ==> r is None,
        bytes@.len() == 6 ==> r == Some(
            SocketAddrV4 {
                ip: Ipv4Addr(be32_value(bytes@, 0) as u32),
                port: be16_value(bytes@, 4) as u16,
            },
        ),
{
    if bytes.len() != 6 {
        return None;
    }
    let ip = read_be32(bytes, 0);
    let port = read_be16(bytes, 4);
    Some(SocketAddrV4 { ip: Ipv4Addr(ip), port })
}

} // verus!
