use nat_traversal::addr::{Ipv4Addr, Ipv6Addr};
use nat_traversal::netmask::{ApplyNetmask, ApplyNetmaskError};
use nat_traversal::subnet::{Ipv4Subnet, Ipv4SubnetNewError, Ipv6Subnet, Ipv6SubnetNewError};

fn v6(s: [u16; 8]) -> Ipv6Addr {
    Ipv6Addr::new(s[0], s[1], s[2], s[3], s[4], s[5], s[6], s[7])
}

#[test]
fn apply_netmask_v4() {
    let addr = Ipv4Addr::new(170, 170, 170, 170);

    let masked = addr.apply_netmask(0).unwrap();
    assert_eq!(masked, Ipv4Addr::new(0, 0, 0, 0));

    let masked = addr.apply_netmask(6).unwrap();
    assert_eq!(masked, Ipv4Addr::new(168, 0, 0, 0));

    let masked = addr.apply_netmask(14).unwrap();
    assert_eq!(masked, Ipv4Addr::new(170, 168, 0, 0));

    let masked = addr.apply_netmask(22).unwrap();
    assert_eq!(masked, Ipv4Addr::new(170, 170, 168, 0));

    let masked = addr.apply_netmask(30).unwrap();
    assert_eq!(masked, Ipv4Addr::new(170, 170, 170, 168));

    let masked = addr.apply_netmask(32).unwrap();
    assert_eq!(masked, Ipv4Addr::new(170, 170, 170, 170));
}

#[test]
#[should_panic]
fn apply_bad_netmask_v4() {
    let addr = Ipv4Addr::new(170, 170, 170, 170);
    let _ = addr.apply_netmask(33).unwrap();
}

#[test]
fn apply_netmask_v6() {
    let addr = v6([0xaaaa; 8]);

    let masked = addr.apply_netmask(0).unwrap();
    assert_eq!(masked, v6([0, 0, 0, 0, 0, 0, 0, 0]));

    let masked = addr.apply_netmask(14).unwrap();
    assert_eq!(masked, v6([0xaaa8, 0, 0, 0, 0, 0, 0, 0]));

    let masked = addr.apply_netmask(30).unwrap();
    assert_eq!(masked, v6([0xaaaa, 0xaaa8, 0, 0, 0, 0, 0, 0]));

    let masked = addr.apply_netmask(46).unwrap();
    assert_eq!(masked, v6([0xaaaa, 0xaaaa, 0xaaa8, 0, 0, 0, 0, 0]));

    let masked = addr.apply_netmask(62).unwrap();
    assert_eq!(masked, v6([0xaaaa, 0xaaaa, 0xaaaa, 0xaaa8, 0, 0, 0, 0]));

    let masked = addr.apply_netmask(78).unwrap();
    assert_eq!(masked, v6([0xaaaa, 0xaaaa, 0xaaaa, 0xaaaa, 0xaaa8, 0, 0, 0]));

    let masked = addr.apply_netmask(94).unwrap();
    assert_eq!(masked, v6([0xaaaa, 0xaaaa, 0xaaaa, 0xaaaa, 0xaaaa, 0xaaa8, 0, 0]));

    let masked = addr.apply_netmask(110).unwrap();
    assert_eq!(masked, v6([0xaaaa, 0xaaaa, 0xaaaa, 0xaaaa, 0xaaaa, 0xaaaa, 0xaaa8, 0]));

    let masked = addr.apply_netmask(126).unwrap();
    assert_eq!(masked, v6([0xaaaa, 0xaaaa, 0xaaaa, 0xaaaa, 0xaaaa, 0xaaaa, 0xaaaa, 0xaaa8]));

    let masked = addr.apply_netmask(128).unwrap();
    assert_eq!(masked, v6([0xaaaa; 8]));
}

#[test]
#[should_panic]
fn apply_bad_netmask_v6() {
    let addr = v6([0; 8]);
    let _ = addr.apply_netmask(129).unwrap();
}

#[test]
fn netmask_out_of_range_reports_width() {
    assert_eq!(
        Ipv4Addr::new(1, 2, 3, 4).apply_netmask(40),
        Err(ApplyNetmaskError::OutOfRange(40, 32))
    );
    assert_eq!(v6([1; 8]).apply_netmask(200), Err(ApplyNetmaskError::OutOfRange(200, 128)));
}

#[test]
fn masking_twice_changes_nothing_more() {
    let addr = Ipv4Addr::new(203, 0, 113, 77);
    for bits in 0..=32u8 {
        let once = addr.apply_netmask(bits).unwrap();
        assert_eq!(once.apply_netmask(bits).unwrap(), once);
    }
    let addr6 = v6([0x2001, 0xdb8, 0x1234, 0x5678, 0x9abc, 0xdef0, 0x1357, 0x2468]);
    for bits in 0..=128u8 {
        let once = addr6.apply_netmask(bits).unwrap();
        assert_eq!(once.apply_netmask(bits).unwrap(), once);
    }
}

#[test]
fn ipv4_constructors_hold_big_endian_bits() {
    assert_eq!(Ipv4Addr::new(192, 168, 1, 2).0, 0xc0a8_0102);
    assert_eq!(v6([0xfe80, 0, 0, 0, 0, 0, 0, 1]).0, 0xfe80_0000_0000_0000_0000_0000_0000_0001);
}

#[test]
fn ipv4_subnet_new_checks_its_arguments() {
    let s = Ipv4Subnet::new(Ipv4Addr::new(192, 168, 0, 0), 16).unwrap();
    assert_eq!(s.base_addr(), Ipv4Addr::new(192, 168, 0, 0));
    assert_eq!(s.netmask_bits(), 16);
    assert_eq!(
        Ipv4Subnet::new(Ipv4Addr::new(255, 255, 255, 255), 24),
        Err(Ipv4SubnetNewError::TrailingOnes {
            base_addr: Ipv4Addr::new(255, 255, 255, 255),
            netmask_bits: 24
        })
    );
    assert_eq!(
        Ipv4Subnet::new(Ipv4Addr::new(255, 255, 255, 255), 33),
        Err(Ipv4SubnetNewError::NetmaskOutOfRange { netmask_bits: 33 })
    );
}

#[test]
fn ipv6_subnet_new_checks_its_arguments() {
    let s = Ipv6Subnet::new(v6([0xfe80, 0, 0, 0, 0, 0, 0, 0]), 16).unwrap();
    assert_eq!(s.netmask_bits(), 16);
    assert_eq!(
        Ipv6Subnet::new(v6([0, 0, 0, 0, 0, 0, 0, 1]), 127),
        Err(Ipv6SubnetNewError::TrailingOnes {
            base_addr: v6([0, 0, 0, 0, 0, 0, 0, 1]),
            netmask_bits: 127
        })
    );
    assert_eq!(
        Ipv6Subnet::new(v6([0, 0, 0, 0, 0, 0, 0, 1]), 129),
        Err(Ipv6SubnetNewError::NetmaskOutOfRange { netmask_bits: 129 })
    );
}

#[test]
fn well_known_ipv4_ranges() {
    assert!(Ipv4Subnet::loopback().contains(&Ipv4Addr::new(127, 0, 0, 1)));
    assert!(Ipv4Subnet::loopback().contains(&Ipv4Addr::new(127, 255, 1, 9)));
    assert!(!Ipv4Subnet::loopback().contains(&Ipv4Addr::new(128, 0, 0, 1)));
    assert!(Ipv4Subnet::link_local().contains(&Ipv4Addr::new(169, 254, 3, 4)));
    assert!(!Ipv4Subnet::link_local().contains(&Ipv4Addr::new(169, 253, 3, 4)));
    assert!(Ipv4Subnet::multicast().contains(&Ipv4Addr::new(239, 1, 2, 3)));
    assert!(!Ipv4Subnet::multicast().contains(&Ipv4Addr::new(240, 1, 2, 3)));
}

#[test]
fn well_known_ipv6_ranges() {
    assert!(Ipv6Subnet::loopback().contains(&v6([0, 0, 0, 0, 0, 0, 0, 1])));
    assert!(!Ipv6Subnet::loopback().contains(&v6([0, 0, 0, 0, 0, 0, 0, 2])));
    assert!(Ipv6Subnet::link_local().contains(&v6([0xfebf, 1, 0, 0, 0, 0, 0, 0])));
    assert!(!Ipv6Subnet::link_local().contains(&v6([0xfec0, 0, 0, 0, 0, 0, 0, 0])));
    assert!(Ipv6Subnet::multicast().contains(&v6([0xff02, 0, 0, 0, 0, 0, 0, 1])));
    assert!(!Ipv6Subnet::multicast().contains(&v6([0xfe02, 0, 0, 0, 0, 0, 0, 1])));
}
