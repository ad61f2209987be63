use nat_traversal::addr::{Ipv4Addr, SocketAddrV4};
use nat_traversal::endpoints::MappedSocketAddr;
use nat_traversal::reflection::{decode_reflection, encode_reflection};
use nat_traversal::rendezvous::RendezvousInfo;

fn sample() -> RendezvousInfo {
    RendezvousInfo::from_endpoints(
        vec![
            MappedSocketAddr {
                addr: SocketAddrV4::new(Ipv4Addr::new(203, 0, 113, 9), 0x1234),
                nat_restricted: false,
            },
            MappedSocketAddr {
                addr: SocketAddrV4::new(Ipv4Addr::new(10, 1, 2, 3), 80),
                nat_restricted: true,
            },
        ],
        [0xde, 0xad, 0xbe, 0xef],
    )
}

#[test]
fn rendezvous_info_round_trips() {
    let info = sample();
    assert_eq!(RendezvousInfo::decode(&info.encode()), Some(info));
    let empty = RendezvousInfo::from_endpoints(vec![], [1, 2, 3, 4]);
    assert_eq!(RendezvousInfo::decode(&empty.encode()), Some(empty));
}

#[test]
fn rendezvous_info_encoding_is_exact() {
    let bytes = sample().encode();
    assert_eq!(
        bytes,
        vec![
            0, 0, 0, 2, //
            203, 0, 113, 9, 0x12, 0x34, 0, //
            10, 1, 2, 3, 0, 80, 1, //
            0xde, 0xad, 0xbe, 0xef,
        ]
    );
}

#[test]
fn malformed_rendezvous_info_is_refused() {
    let good = sample().encode();
    assert_eq!(RendezvousInfo::decode(&vec![0, 0, 0]), None);
    let mut short = good.clone();
    short.pop();
    assert_eq!(RendezvousInfo::decode(&short), None);
    let mut long = good.clone();
    long.push(0);
    assert_eq!(RendezvousInfo::decode(&long), None);
    let mut bad_flag = good.clone();
    bad_flag[10] = 2;
    assert_eq!(RendezvousInfo::decode(&bad_flag), None);
}

#[test]
fn reflection_answer_round_trips() {
    let seen = SocketAddrV4::new(Ipv4Addr::new(198, 51, 100, 23), 50000);
    let bytes = encode_reflection(seen);
    assert_eq!(bytes, vec![198, 51, 100, 23, 0xc3, 0x50]);
    assert_eq!(decode_reflection(&bytes), Some(seen));
    assert_eq!(decode_reflection(&vec![1, 2, 3]), None);
}
