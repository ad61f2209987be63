use vstd::prelude::*;

use crate::addr::{Ipv4Addr, SocketAddrV4};
use crate::subnet::{in_subnet_v4, Ipv4Subnet};

verus! {

/// A socket address obtained through some mapping technique.
#[derive(Clone, Copy, Debug, PartialEq, Eq, Structural)]
pub struct MappedSocketAddr {
    /// The mapped address.
    pub addr: SocketAddrV4,
    /// Hole punching is needed for an outside client to reach this address.
    /// It is unset for a fully mapped address, such as one forwarded by a
    /// gateway through UPnP.
    pub nat_restricted: bool,
}

/// `ip` may be shown to a peer: it is neither loopback (127.0.0.0/8),
/// link-local (169.254.0.0/16) nor multicast (224.0.0.0/4).
#[verifier::opaque]
pub open spec fn is_exposable(ip: Ipv4Addr) -> bool {
    &&& !in_subnet_v4(ip, Ipv4Addr(0x7f00_0000), 8)
    &&& !in_subnet_v4(ip, Ipv4Addr(0xa9fe_0000), 16)
    &&& !in_subnet_v4(ip, Ipv4Addr(0xe000_0000), 4)
}

/// Some entry of `s` has the address `a`.
pub open spec fn has_addr(s: Seq<MappedSocketAddr>, a: SocketAddrV4) -> bool {
    exists|i: int| 0 <= i < s.len() && s[i].addr == a
}

/// Every entry of `s` with the address `a` is restricted.
pub open spec fn all_restricted(s: Seq<MappedSocketAddr>, a: SocketAddrV4) -> bool {
    forall|k: int| 0 <= k < s.len() && s[k].addr == a ==> s[k].nat_restricted
}

/// `r` is what the candidates `cands` give once merged: one entry per
/// address of an exposable candidate, and no other; an entry is restricted
/// unless some candidate with its address is unrestricted.
pub open spec fn merged(cands: Seq<MappedSocketAddr>, r: Seq<MappedSocketAddr>) -> bool {
    &&& forall|i: int, j: int| 0 <= i < j < r.len() ==> r[i].addr != r[j].addr
    &&& forall|i: int|
        0 <= i < r.len() ==> is_exposable(r[i].addr.ip) && has_addr(cands, #[trigger] r[i].addr)
    &&& forall|k: int|
        0 <= k < cands.len() && is_exposable(cands[k].addr.ip) ==> has_addr(r, #[trigger] cands[k].addr)
    &&& forall|i: int|
        0 <= i < r.len() ==> (r[i].nat_restricted <==> all_restricted(cands, #[trigger] r[i].addr))
}

/// Test whether `ip` may be shown to a peer.
pub fn exposable(ip: Ipv4Addr) -> (r: bool)
    ensures
        r == is_exposable(ip),
{
    reveal(is_exposable);
    !Ipv4Subnet::loopback().contains(&ip) && !Ipv4Subnet::link_local().contains(&ip)
        && !Ipv4Subnet::multicast().contains(&ip)
}

/// The index of the entry of `list` with address `a`, if any.
fn position_of(list: &Vec<MappedSocketAddr>, a: SocketAddrV4) -> (r: Option<usize>)
    ensures
        r is None ==> forall|j: int| 0 <= j < list@.len() ==> list@[j].addr != a,
        r is Some ==> r->0 < list@.len() && list@[r->0 as int].addr == a,
{
    let mut i: usize = 0;
    while i < list.len()
        invariant
            i <= list@.len(),
            forall|j: int| 0 <= j < i ==> list@[j].addr != a,
        decreases list@.len() - i,
    {
        if list[i].addr == a {
            return Some(i);
        }
        i += 1;
    }
    None
}

/// A candidate that may not be shown leaves the merged list as it was.
proof fn lemma_merge_hidden(cands: Seq<MappedSocketAddr>, c: MappedSocketAddr, r: Seq<MappedSocketAddr>)
    requires
        merged(cands, r),
        !is_exposable(c.addr.ip),
    ensures
        merged(cands.push(c), r),
{
    let all = cands.push(c);
    assert forall|i: int| 0 <= i < r.len() implies (r[i].nat_restricted <==> forall|k: int|
        0 <= k < all.len() && all[k].addr == r[i].addr ==> all[k].nat_restricted) by {
        assert(r[i].addr != c.addr);
        assert forall|k: int| 0 <= k < all.len() && all[k].addr == r[i].addr implies k < cands.len()
            && all[k] == cands[k] by {}
    }
    assert forall|i: int| 0 <= i < r.len() implies is_exposable(r[i].addr.ip) && exists|k: int|
        0 <= k < all.len() && all[k].addr == r[i].addr by {
        let k = choose|k: int| 0 <= k < cands.len() && cands[k].addr == r[i].addr;
        assert(all[k] == cands[k]);
    }
    assert forall|k: int| 0 <= k < all.len() && is_exposable(all[k].addr.ip) implies exists|i: int|
        0 <= i < r.len() && r[i].addr == all[k].addr by {
        assert(all[k] == cands[k]);
    }
}

/// A shown candidate with a new address is appended.
proof fn lemma_merge_new(cands: Seq<MappedSocketAddr>, c: MappedSocketAddr, r: Seq<MappedSocketAddr>)
    requires
        merged(cands, r),
        is_exposable(c.addr.ip),
        forall|j: int| 0 <= j < r.len() ==> r[j].addr != c.addr,
    ensures
        merged(cands.push(c), r.push(c)),
{
    let all = cands.push(c);
    let out = r.push(c);
    let n = r.len() as int;
    assert forall|k: int| 0 <= k < cands.len() implies cands[k].addr != c.addr by {
        if cands[k].addr == c.addr {
            let i = choose|i: int| 0 <= i < r.len() && r[i].addr == cands[k].addr;
        }
    }
    assert forall|i: int| 0 <= i < out.len() implies is_exposable(out[i].addr.ip) && exists|k: int|
        0 <= k < all.len() && all[k].addr == out[i].addr by {
        if i < n {
            let k = choose|k: int| 0 <= k < cands.len() && cands[k].addr == r[i].addr;
            assert(all[k] == cands[k]);
        } else {
            assert(all[cands.len() as int].addr == out[i].addr);
        }
    }
    assert forall|k: int| 0 <= k < all.len() && is_exposable(all[k].addr.ip) implies exists|i: int|
        0 <= i < out.len() && out[i].addr == all[k].addr by {
        if k < cands.len() {
            assert(all[k] == cands[k]);
            let i = choose|i: int| 0 <= i < r.len() && r[i].addr == cands[k].addr;
            assert(out[i] == r[i]);
        } else {
            assert(out[n].addr == all[k].addr);
        }
    }
    assert forall|i: int| 0 <= i < out.len() implies (out[i].nat_restricted <==> forall|k: int|
        0 <= k < all.len() && all[k].addr == out[i].addr ==> all[k].nat_restricted) by {
        if i < n {
            assert(out[i] == r[i]);
            assert forall|k: int| 0 <= k < all.len() && all[k].addr == out[i].addr implies k
                < cands.len() && all[k] == cands[k] by {}
        } else {
            assert forall|k: int| 0 <= k < all.len() && all[k].addr == out[i].addr implies k
                == cands.len() by {}
        }
    }
}

/// A restricted candidate whose address is listed already changes nothing.
proof fn lemma_merge_known_restricted(
    cands: Seq<MappedSocketAddr>,
    c: MappedSocketAddr,
    r: Seq<MappedSocketAddr>,
    p: int,
)
    requires
        merged(cands, r),
        0 <= p < r.len(),
        r[p].addr == c.addr,
        c.nat_restricted,
    ensures
        merged(cands.push(c), r),
{
    let all = cands.push(c);
    assert forall|a: SocketAddrV4| has_addr(cands, a) implies has_addr(all, a) by {
        let k = choose|k: int| 0 <= k < cands.len() && cands[k].addr == a;
        assert(all[k] == cands[k]);
    }
    assert forall|a: SocketAddrV4| all_restricted(all, a) == all_restricted(cands, a) by {
        if all_restricted(cands, a) {
            assert forall|k: int| 0 <= k < all.len() && all[k].addr == a implies all[k].nat_restricted by {
                if k < cands.len() {
                    assert(all[k] == cands[k]);
                }
            }
        }
        if all_restricted(all, a) {
            assert forall|k: int| 0 <= k < cands.len() && cands[k].addr == a implies cands[k].nat_restricted by {
                assert(all[k] == cands[k]);
            }
        }
    }
    assert forall|k: int| 0 <= k < all.len() && is_exposable(all[k].addr.ip) implies has_addr(r, all[k].addr) by {
        if k < cands.len() {
            assert(all[k] == cands[k]);
        } else {
            assert(r[p].addr == all[k].addr);
        }
    }
}

/// An unrestricted candidate whose address is listed at `p` makes that entry unrestricted.
proof fn lemma_merge_known_open(
    cands: Seq<MappedSocketAddr>,
    c: MappedSocketAddr,
    r: Seq<MappedSocketAddr>,
    p: int,
)
    requires
        merged(cands, r),
        0 <= p < r.len(),
        r[p].addr == c.addr,
        !c.nat_restricted,
    ensures
        merged(cands.push(c), r.update(p, c)),
{
    let all = cands.push(c);
    let out = r.update(p, c);
    assert forall|i: int| 0 <= i < out.len() implies out[i].addr == r[i].addr by {}
    assert forall|a: SocketAddrV4| has_addr(cands, a) implies has_addr(all, a) by {
        let k = choose|k: int| 0 <= k < cands.len() && cands[k].addr == a;
        assert(all[k] == cands[k]);
    }
    assert forall|a: SocketAddrV4| a != c.addr implies all_restricted(all, a) == all_restricted(cands, a) by {
        if all_restricted(cands, a) {
            assert forall|k: int| 0 <= k < all.len() && all[k].addr == a implies all[k].nat_restricted by {
                if k < cands.len() {
                    assert(all[k] == cands[k]);
                }
            }
        }
        if all_restricted(all, a) {
            assert forall|k: int| 0 <= k < cands.len() && cands[k].addr == a implies cands[k].nat_restricted by {
                assert(all[k] == cands[k]);
            }
        }
    }
    assert(!all_restricted(all, c.addr)) by {
        assert(all[cands.len() as int] == c);
    }
    assert forall|k: int| 0 <= k < all.len() && is_exposable(all[k].addr.ip) implies has_addr(out, all[k].addr) by {
        if k < cands.len() {
            assert(all[k] == cands[k]);
            let i = choose|i: int| 0 <= i < r.len() && r[i].addr == cands[k].addr;
            assert(out[i].addr == r[i].addr);
        } else {
            assert(out[p].addr == all[k].addr);
        }
    }
    assert forall|i: int| 0 <= i < out.len() implies is_exposable(out[i].addr.ip) && has_addr(all, out[i].addr) by {
        assert(out[i].addr == r[i].addr);
    }
    assert forall|i: int| 0 <= i < out.len() implies (out[i].nat_restricted <==> all_restricted(all, out[i].addr)) by {
        if i != p {
            assert(out[i] == r[i]);
            assert(r[i].addr != c.addr);
        }
    }
}

/// Merge one more candidate into `list`.
fn add_candidate(list: &mut Vec<MappedSocketAddr>, c: MappedSocketAddr, Ghost(cands): Ghost<
    Seq<MappedSocketAddr>,
>)
    requires
        merged(cands, old(list)@),
    ensures
        merged(cands.push(c), final(list)@),
{
    if !exposable(c.addr.ip) {
        proof {
            lemma_merge_hidden(cands, c, list@);
        }
        return;
    }
    let ghost before = list@;
    match position_of(list, c.addr) {
        None => {
            proof {
                lemma_merge_new(cands, c, before);
            }
            list.push(c);
        },
        Some(p) => {
            if !c.nat_restricted {
                proof {
                    lemma_merge_known_open(cands, c, before, p as int);
                }
                list.set(p, c);
            } else {
                proof {
                    lemma_merge_known_restricted(cands, c, before, p as int);
                }
            }
        },
    }
}

/// The candidates for a socket bound at `local`, in the order they are
/// merged: the bound address itself (restricted), the addresses that
/// gateways forward to it (unrestricted), and the addresses that reflection
/// servers observed (restricted).
pub open spec fn candidates(
    local: SocketAddrV4,
    forwarded: Seq<SocketAddrV4>,
    reflected: Seq<SocketAddrV4>,
) -> Seq<MappedSocketAddr> {
    seq![MappedSocketAddr { addr: local, nat_restricted: true }] + forwarded.map_values(
        |a: SocketAddrV4| MappedSocketAddr { addr: a, nat_restricted: false },
    ) + reflected.map_values(|a: SocketAddrV4| MappedSocketAddr { addr: a, nat_restricted: true })
}

/// The endpoint list of a socket bound at `local`, given the addresses that
/// gateways forward to it and those that reflection servers observed.
pub fn collect_endpoints(
    local: SocketAddrV4,
    forwarded: &Vec<SocketAddrV4>,
    reflected: &Vec<SocketAddrV4>,
) -> (r: Vec<MappedSocketAddr>)
    ensures
        merged(candidates(local, forwarded@, reflected@), r@),
        forall|i: int|
            0 <= i < r@.len() ==> (r@[i].nat_restricted <==> !forwarded@.contains(r@[i].addr)),
{
    let ghost fwd = forwarded@.map_values(
        |a: SocketAddrV4| MappedSocketAddr { addr: a, nat_restricted: false },
    );
    let ghost refl = reflected@.map_values(
        |a: SocketAddrV4| MappedSocketAddr { addr: a, nat_restricted: true },
    );
    let mut list: Vec<MappedSocketAddr> = Vec::new();
    let first = MappedSocketAddr { addr: local, nat_restricted: true };
    let ghost head = seq![first];
    proof {
        assert(Seq::<MappedSocketAddr>::empty().push(first) =~= head);
    }
    add_candidate(&mut list, first, Ghost(Seq::empty()));
    let mut i: usize = 0;
    while i < forwarded.len()
        invariant
            i <= forwarded@.len(),
            fwd.len() == forwarded@.len(),
            fwd == forwarded@.map_values(
                |a: SocketAddrV4| MappedSocketAddr { addr: a, nat_restricted: false },
            ),
            merged(head + fwd.take(i as int), list@),
        decreases forwarded@.len() - i,
    {
        let c = MappedSocketAddr { addr: forwarded[i], nat_restricted: false };
        proof {
            assert((head + fwd.take(i as int)).push(c) =~= head + fwd.take(i + 1));
        }
        add_candidate(&mut list, c, Ghost(head + fwd.take(i as int)));
        i += 1;
    }
    proof {
        assert(fwd.take(i as int) =~= fwd);
    }
    let mut j: usize = 0;
    while j < reflected.len()
        invariant
            j <= reflected@.len(),
            refl.len() == reflected@.len(),
            refl == reflected@.map_values(
                |a: SocketAddrV4| MappedSocketAddr { addr: a, nat_restricted: true },
            ),
            merged(head + fwd + refl.take(j as int), list@),
        decreases reflected@.len() - j,
    {
        let c = MappedSocketAddr { addr: reflected[j], nat_restricted: true };
        proof {
            assert((head + fwd + refl.take(j as int)).push(c) =~= head + fwd + refl.take(j + 1));
        }
        add_candidate(&mut list, c, Ghost(head + fwd + refl.take(j as int)));
        j += 1;
    }
    proof {
        assert(refl.take(j as int) =~= refl);
        assert forall|i: int| 0 <= i < list@.len() implies (list@[i].nat_restricted
            <==> !forwarded@.contains(list@[i].addr)) by {
            lemma_restricted_unless_forwarded(local, forwarded@, reflected@, list@[i].addr);
        }
    }
    list
}

/// Among the candidates, exactly the forwarded addresses come unrestricted.
proof fn lemma_restricted_unless_forwarded(
    local: SocketAddrV4,
    forwarded: Seq<SocketAddrV4>,
    reflected: Seq<SocketAddrV4>,
    a: SocketAddrV4,
)
    ensures
        all_restricted(candidates(local, forwarded, reflected), a) <==> !forwarded.contains(a),
{
    let cands = candidates(local, forwarded, reflected);
    let f = forwarded.len() as int;
    if forwarded.contains(a) {
        let j = choose|j: int| 0 <= j < forwarded.len() && forwarded[j] == a;
        assert(cands[1 + j].addr == a && !cands[1 + j].nat_restricted);
    } else {
        assert forall|k: int| 0 <= k < cands.len() && cands[k].addr == a implies cands[k].nat_restricted by {
            if 1 <= k < 1 + f {
                assert(forwarded[k - 1] == a);
            }
        }
    }
}

/// A socket bound at a loopback, link-local or multicast address never
/// lists that address among its endpoints.
pub proof fn lemma_hidden_local_not_listed(
    local: SocketAddrV4,
    forwarded: Seq<SocketAddrV4>,
    reflected: Seq<SocketAddrV4>,
    r: Seq<MappedSocketAddr>,
)
    requires
        merged(candidates(local, forwarded, reflected), r),
        in_subnet_v4(local.ip, Ipv4Addr(0x7f00_0000), 8) || in_subnet_v4(
            local.ip,
            Ipv4Addr(0xa9fe_0000),
            16,
        ) || in_subnet_v4(local.ip, Ipv4Addr(0xe000_0000), 4),
    ensures
        forall|i: int| 0 <= i < r.len() ==> r[i].addr != local,
{
    reveal(is_exposable);
}

/// With no gateway and no reflection server, the endpoints of a socket
/// bound at an exposable address are that address alone, restricted.
pub proof fn lemma_no_servers_local_only(local: SocketAddrV4, r: Seq<MappedSocketAddr>)
    requires
        merged(candidates(local, Seq::empty(), Seq::empty()), r),
        is_exposable(local.ip),
    ensures
        r == seq![MappedSocketAddr { addr: local, nat_restricted: true }],
{
    let first = MappedSocketAddr { addr: local, nat_restricted: true };
    let cands = candidates(local, Seq::empty(), Seq::empty());
    assert(cands =~= seq![first]);
    assert(cands[0] == first);
    assert forall|i: int| 0 <= i < r.len() implies r[i].addr == local by {
        assert(has_addr(cands, r[i].addr));
    }
    assert(has_addr(r, cands[0].addr));
    if r.len() > 1 {
        assert(r[0].addr == local && r[1].addr == local);
    }
    assert(r.len() == 1);
    assert(all_restricted(cands, local));
    assert(r =~= seq![first]);
}

} // verus!
