use nat_traversal::addr::{Ipv4Addr, SocketAddrV4};
use nat_traversal::endpoints::{collect_endpoints, exposable, MappedSocketAddr};
use nat_traversal::mapping::{HolePunchServerAddr, MappedUdpSocket, MappingContext};

fn sa(a: u8, b: u8, c: u8, d: u8, port: u16) -> SocketAddrV4 {
    SocketAddrV4::new(Ipv4Addr::new(a, b, c, d), port)
}

fn mapped(addr: SocketAddrV4, nat_restricted: bool) -> MappedSocketAddr {
    MappedSocketAddr { addr, nat_restricted }
}

#[test]
fn no_servers_leaves_the_local_address_restricted() {
    let local = sa(192, 168, 1, 20, 5000);
    let m = MappedUdpSocket::map((), local, &vec![], &vec![]);
    assert_eq!(m.endpoints, vec![mapped(local, true)]);
}

#[test]
fn special_local_binds_are_not_listed() {
    for local in [sa(127, 0, 0, 1, 5000), sa(169, 254, 9, 9, 5000), sa(224, 0, 0, 251, 5353)] {
        let m = MappedUdpSocket::map((), local, &vec![], &vec![]);
        assert!(m.endpoints.is_empty());
    }
    let public = sa(198, 51, 100, 7, 40000);
    let m = MappedUdpSocket::map((), sa(127, 0, 0, 1, 5000), &vec![], &vec![public]);
    assert_eq!(m.endpoints, vec![mapped(public, true)]);
}

#[test]
fn forwarded_addresses_are_unrestricted_and_reflected_restricted() {
    let local = sa(10, 0, 0, 5, 4000);
    let fwd = sa(203, 0, 113, 1, 4000);
    let seen = sa(198, 51, 100, 2, 61000);
    let r = collect_endpoints(local, &vec![fwd], &vec![seen]);
    assert_eq!(r, vec![mapped(local, true), mapped(fwd, false), mapped(seen, true)]);
}

#[test]
fn one_entry_per_address_unrestricted_wins() {
    let local = sa(10, 0, 0, 5, 4000);
    let ext = sa(203, 0, 113, 1, 4000);
    let r = collect_endpoints(local, &vec![ext, ext], &vec![ext, local]);
    assert_eq!(r, vec![mapped(local, true), mapped(ext, false)]);
    let r = collect_endpoints(ext, &vec![], &vec![ext, ext]);
    assert_eq!(r, vec![mapped(ext, true)]);
    let r = collect_endpoints(ext, &vec![ext], &vec![]);
    assert_eq!(r, vec![mapped(ext, false)]);
}

#[test]
fn reported_special_addresses_are_dropped() {
    let local = sa(10, 0, 0, 5, 4000);
    let r = collect_endpoints(local, &vec![sa(127, 0, 0, 1, 1)], &vec![sa(169, 254, 0, 1, 2), sa(239, 0, 0, 1, 3)]);
    assert_eq!(r, vec![mapped(local, true)]);
}

#[test]
fn exposable_classifies_addresses() {
    assert!(exposable(Ipv4Addr::new(8, 8, 8, 8)));
    assert!(exposable(Ipv4Addr::new(192, 168, 0, 1)));
    assert!(!exposable(Ipv4Addr::new(127, 0, 0, 1)));
    assert!(!exposable(Ipv4Addr::new(169, 254, 1, 1)));
    assert!(!exposable(Ipv4Addr::new(224, 0, 0, 1)));
}

#[test]
fn mapping_context_keeps_servers_in_order() {
    let mut mc = MappingContext::new();
    assert!(mc.servers().is_empty());
    mc.add_servers(vec![HolePunchServerAddr::Simple(sa(198, 51, 100, 1, 5483))]);
    mc.add_servers(vec![HolePunchServerAddr::Simple(sa(198, 51, 100, 2, 5483))]);
    let got: Vec<SocketAddrV4> = mc
        .servers()
        .iter()
        .filter_map(|s| match s {
            HolePunchServerAddr::Simple(a) => Some(*a),
            HolePunchServerAddr::IgdGateway(_) => None,
        })
        .collect();
    assert_eq!(got, vec![sa(198, 51, 100, 1, 5483), sa(198, 51, 100, 2, 5483)]);
}
