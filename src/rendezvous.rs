use vstd::prelude::*;

use crate::addr::{Ipv4Addr, SocketAddrV4};
use crate::endpoints::MappedSocketAddr;
use crate::wire::{
    be16_bytes, be16_value, be32_bytes, be32_value, lemma_be16_value, lemma_be32_value, push_be16,
    push_be32, read_be16, read_be32,
};

verus! {

/// Info needed by both parties when performing a rendezvous connection.
#[derive(Clone, Debug, PartialEq, Eq)]
pub struct RendezvousInfo {
    /// All the mapped addresses that the peer can try connecting to.
    pub endpoints: Vec<MappedSocketAddr>,
    /// Used to identify the peer.
    pub secret: [u8; 4],
}

/// The seven bytes of one endpoint: address, port, and 1 or 0 for restricted or not.
pub open spec fn entry_bytes(e: MappedSocketAddr) -> Seq<u8> {
    be32_bytes(e.addr.ip.0 as nat) + be16_bytes(e.addr.port as nat) + seq![
        if e.nat_restricted {
            1u8
        } else {
            0u8
        },
    ]
}

/// The endpoints' bytes, one after another.
pub open spec fn entries_bytes(s: Seq<MappedSocketAddr>) -> Seq<u8>
    decreases s.len(),
{
    if s.len() == 0 {
        seq![]
    } else {
        entries_bytes(s.drop_last()) + entry_bytes(s.last())
    }
}

/// The encoding of rendezvous info: the endpoint count in four bytes, each
/// endpoint in seven bytes, then the four bytes of the secret.
pub open spec fn rendezvous_bytes(endpoints: Seq<MappedSocketAddr>, secret: Seq<u8>) -> Seq<u8> {
    be32_bytes(endpoints.len()) + entries_bytes(endpoints) + secret
}

/// The endpoint held in the seven bytes of `b` from `off`, if its flag byte is 0 or 1.
pub open spec fn entry_from(b: Seq<u8>, off: int) -> Option<MappedSocketAddr> {
    if b[off + 6] > 1 {
        None
    } else {
        Some(
            MappedSocketAddr {
                addr: SocketAddrV4 {
                    ip: Ipv4Addr(be32_value(b, off) as u32),
                    port: be16_value(b, off + 4) as u16,
                },
                nat_restricted: b[off + 6] == 1,
            },
        )
    }
}

/// The `n` endpoints held in `b` from `off`, if each of them is well formed.
pub open spec fn entries_from(b: Seq<u8>, off: int, n: nat) -> Option<Seq<MappedSocketAddr>>
    decreases n,
{
    if n == 0 {
        Some(seq![])
    } else {
        match entries_from(b, off, (n - 1) as nat) {
            Some(s) => match entry_from(b, off + 7 * (n - 1)) {
                Some(e) => Some(s.push(e)),
                None => None,
            },
            None => None,
        }
    }
}

/// The endpoints and secret that `b` encodes, if it is an encoding of rendezvous info.
pub open spec fn parse_rendezvous(b: Seq<u8>) -> Option<(Seq<MappedSocketAddr>, Seq<u8>)> {
    if b.len() < 8 {
        None
    } else if b.len() != 8 + 7 * be32_value(b, 0) {
        None
    } else {
        match entries_from(b, 4, be32_value(b, 0)) {
            Some(s) => Some((s, b.subrange(b.len() - 4, b.len() as int))),
            None => None,
        }
    }
}

/// Append the seven bytes of one endpoint.
fn push_entry(out: &mut Vec<u8>, e: &MappedSocketAddr)
    ensures
        final(out)@ == old(out)@ + entry_bytes(*e),
{
    push_be32(out, e.addr.ip.0);
    push_be16(out, e.addr.port);
    out.push(if e.nat_restricted { 1u8 } else { 0u8 });
    assert(out@ =~= old(out)@ + entry_bytes(*e));
}

impl RendezvousInfo {
    /// Package a peer's endpoints with a secret freshly drawn for this session.
    pub fn from_endpoints(endpoints: Vec<MappedSocketAddr>, secret: [u8; 4]) -> (r: RendezvousInfo)
        ensures
            r.endpoints@ == endpoints@,
            r.secret@ == secret@,
    {
        RendezvousInfo { endpoints, secret }
    }

    /// The bytes to send to the peer over the signaling channel.
    pub fn encode(&self) -> (r: Vec<u8>)
        requires
            self.endpoints@.len() <= u32::MAX,
        ensures
            r@ == rendezvous_bytes(self.endpoints@, self.secret@),
    {
        let eps = &self.endpoints;
        let mut out: Vec<u8> = Vec::new();
        push_be32(&mut out, eps.len() as u32);
        let mut i: usize = 0;
        while i < eps.len()
            invariant
                i <= eps@.len(),
                eps@.len() <= u32::MAX,
                out@ == be32_bytes(eps@.len()) + entries_bytes(eps@.take(i as int)),
            decreases eps@.len() - i,
        {
            push_entry(&mut out, &eps[i]);
            proof {
                assert(eps@.take(i + 1).drop_last() =~= eps@.take(i as int));
            }
            i += 1;
        }
        proof {
            assert(eps@.take(i as int) =~= eps@);
        }
        out.push(self.secret[0]);
        out.push(self.secret[1]);
        out.push(self.secret[2]);
        out.push(self.secret[3]);
        assert(out@ =~= rendezvous_bytes(eps@, self.secret@));
        out
    }
}

/// Once an endpoint is malformed, no longer run of endpoints parses.
proof fn lemma_entries_stay_none(b: Seq<u8>, off: int, i: nat, n: nat)
    requires
        entries_from(b, off, i) is None,
        i <= n,
    ensures
        entries_from(b, off, n) is None,
    decreases n,
{
    if n > i {
        lemma_entries_stay_none(b, off, i, (n - 1) as nat);
    }
}

/// The endpoint held in seven bytes of `b` from `off`, if well formed.
fn read_entry(b: &Vec<u8>, off: usize) -> (r: Option<MappedSocketAddr>)
    requires
        off + 7 <= b@.len(),
    ensures
        r == entry_from(b@, off as int),
{
    let len = b.len();
    assert(off + 7 <= len);
    let flag = b[off + 6];
    if flag > 1 {
        return None;
    }
    let ip = read_be32(b, off);
    let port = read_be16(b, off + 4);
    Some(
        MappedSocketAddr {
            addr: SocketAddrV4 { ip: Ipv4Addr(ip), port },
            nat_restricted: flag == 1,
        },
    )
}

impl RendezvousInfo {
    /// The rendezvous info that `bytes` encodes, or `None` where `bytes` is
    /// no encoding of rendezvous info.
    pub fn decode(bytes: &Vec<u8>) -> (r: Option<RendezvousInfo>)
        ensures
            match parse_rendezvous(bytes@) {
                None => r is None,
                Some(p) => r is Some && r->0.endpoints@ == p.0 && r->0.secret@ == p.1,
            },
    {
        let len = bytes.len();
        if len < 8 {
            return None;
        }
        let n = read_be32(bytes, 0);
        if len as u64 != 8 + 7 * (n as u64) {
            return None;
        }
        let ghost b = bytes@;
        let mut endpoints: Vec<MappedSocketAddr> = Vec::new();
        let mut i: usize = 0;
        while i < n as usize
            invariant
                i <= n,
                b == bytes@,
                len == b.len(),
                len == 8 + 7 * (n as nat),
                n as nat == be32_value(b, 0),
                entries_from(b, 4, i as nat) == Some(endpoints@),
            decreases n - i,
        {
            match read_entry(bytes, 4 + 7 * i) {
                Some(e) => {
                    endpoints.push(e);
                },
                None => {
                    proof {
                        lemma_entries_stay_none(b, 4, (i + 1) as nat, n as nat);
                    }
                    return None;
                },
            }
            i += 1;
        }
        let secret: [u8; 4] = [bytes[len - 4], bytes[len - 3], bytes[len - 2], bytes[len - 1]];
        assert(secret@ =~= b.subrange(len - 4, len as int));
        Some(RendezvousInfo { endpoints, secret })
    }
}

proof fn lemma_entries_bytes(s: Seq<MappedSocketAddr>)
    ensures
        entries_bytes(s).len() == 7 * s.len(),
        forall|k: int, j: int|
            0 <= k < s.len() && 0 <= j < 7 ==> entries_bytes(s)[7 * k + j] == #[trigger] entry_bytes(
                s[k],
            )[j],
    decreases s.len(),
{
    if s.len() > 0 {
        let init = s.drop_last();
        lemma_entries_bytes(init);
        let n = s.len() - 1;
        assert forall|k: int, j: int| 0 <= k < s.len() && 0 <= j < 7 implies entries_bytes(s)[7 * k
            + j] == #[trigger] entry_bytes(s[k])[j] by {
            if k < n {
                assert(7 * k + j < 7 * n) by (nonlinear_arith)
                    requires
                        k < n,
                        j < 7,
                ;
                assert(s[k] == init[k]);
            } else {
                assert(7 * k + j - 7 * n == j);
            }
        }
    }
}

proof fn lemma_entry_from(b: Seq<u8>, off: int, e: MappedSocketAddr)
    requires
        0 <= off,
        off + 7 <= b.len(),
        forall|j: int| 0 <= j < 7 ==> b[off + j] == #[trigger] entry_bytes(e)[j],
    ensures
        entry_from(b, off) == Some(e),
{
    let eb = entry_bytes(e);
    let ip = be32_bytes(e.addr.ip.0 as nat);
    let port = be16_bytes(e.addr.port as nat);
    assert(eb[0] == ip[0] && eb[1] == ip[1] && eb[2] == ip[2] && eb[3] == ip[3]);
    assert(eb[4] == port[0] && eb[5] == port[1]);
    assert(b[off] == eb[0] && b[off + 1] == eb[1] && b[off + 2] == eb[2] && b[off + 3] == eb[3]);
    assert(b[off + 4] == eb[4] && b[off + 5] == eb[5] && b[off + 6] == eb[6]);
    lemma_be32_value(e.addr.ip.0);
    lemma_be16_value(e.addr.port);
}

proof fn lemma_entries_prefix(b: Seq<u8>, e: Seq<MappedSocketAddr>, m: nat)
    requires
        m <= e.len(),
        forall|k: int| 0 <= k < e.len() ==> entry_from(b, 4 + 7 * k) == Some(e[k]),
    ensures
        entries_from(b, 4, m) == Some(e.take(m as int)),
    decreases m,
{
    if m > 0 {
        let p = (m - 1) as nat;
        lemma_entries_prefix(b, e, p);
        assert(entry_from(b, 4 + 7 * (p as int)) == Some(e[p as int]));
        assert(e.take(p as int).push(e[p as int]) =~= e.take(m as int));
    } else {
        assert(e.take(0) =~= Seq::<MappedSocketAddr>::empty());
    }
}

/// Decoding the encoding of rendezvous info gives back its endpoints and secret.
pub proof fn lemma_rendezvous_round_trip(endpoints: Seq<MappedSocketAddr>, secret: Seq<u8>)
    requires
        secret.len() == 4,
        endpoints.len() <= u32::MAX,
    ensures
        parse_rendezvous(rendezvous_bytes(endpoints, secret)) == Some((endpoints, secret)),
{
    let n = endpoints.len();
    let head = be32_bytes(n);
    let body = entries_bytes(endpoints);
    let b = rendezvous_bytes(endpoints, secret);
    lemma_entries_bytes(endpoints);
    assert(b[0] == head[0] && b[1] == head[1] && b[2] == head[2] && b[3] == head[3]);
    lemma_be32_value(n as u32);
    assert(be32_value(b, 0) == n);
    assert forall|k: int| 0 <= k < n implies entry_from(b, 4 + 7 * k) == Some(endpoints[k]) by {
        assert(7 * k + 7 <= 7 * n) by (nonlinear_arith)
            requires
                k < n,
        ;
        assert forall|j: int| 0 <= j < 7 implies b[4 + 7 * k + j] == #[trigger] entry_bytes(
            endpoints[k],
        )[j] by {
            assert(b[4 + 7 * k + j] == body[7 * k + j]);
        }
        lemma_entry_from(b, 4 + 7 * k, endpoints[k]);
    }
    lemma_entries_prefix(b, endpoints, n);
    assert(endpoints.take(n as int) =~= endpoints);
    assert(b.subrange(b.len() - 4, b.len() as int) =~= secret);
}

} // verus!
