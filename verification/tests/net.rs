use chnroutes::net::{
    check_network_address, ipv4_netmask, ipv6_netmask, IpAddress, Ipv4Address, Ipv4Prefix,
    Ipv6Address, Ipv6Prefix, NetParseError, Prefix, PrefixLenError,
};

#[test]
fn address_from_octets_and_back() {
    let addr = Ipv4Address::new(192, 0, 2, 1);
    assert_eq!(addr, Ipv4Address(0xc000_0201));
    assert_eq!(addr.octets(), [192, 0, 2, 1]);
    assert_eq!(Ipv4Address(0).octets(), [0, 0, 0, 0]);
    assert_eq!(Ipv4Address(u32::MAX).octets(), [255, 255, 255, 255]);
}

#[test]
fn address_text_is_dotted_decimal() {
    assert_eq!(Ipv4Address::new(1, 0, 1, 0).to_text(), "1.0.1.0");
    assert_eq!(Ipv4Address::new(255, 255, 254, 0).to_text(), "255.255.254.0");
    assert_eq!(Ipv4Address::new(10, 100, 9, 99).to_text(), "10.100.9.99");
}

#[test]
fn unspecified_addresses() {
    assert!(Ipv4Address(0).is_unspecified());
    assert!(!Ipv4Address(1).is_unspecified());
    assert!(Ipv6Address(0).is_unspecified());
    assert!(!Ipv6Address(1 << 127).is_unspecified());
    assert!(IpAddress::V4(Ipv4Address(0)).is_unspecified());
    assert!(IpAddress::V6(Ipv6Address(0)).is_unspecified());
    assert!(!IpAddress::V6(Ipv6Address(7)).is_unspecified());
    assert!(IpAddress::V4(Ipv4Address(0)).is_ipv4());
    assert!(!IpAddress::V6(Ipv6Address(0)).is_ipv4());
}

#[test]
fn netmask_of_each_length() {
    assert_eq!(ipv4_netmask(0), 0);
    assert_eq!(ipv4_netmask(1), 0x8000_0000);
    assert_eq!(ipv4_netmask(23), 0xffff_fe00);
    assert_eq!(ipv4_netmask(24), 0xffff_ff00);
    assert_eq!(ipv4_netmask(31), 0xffff_fffe);
    assert_eq!(ipv4_netmask(32), 0xffff_ffff);
    assert_eq!(ipv6_netmask(0), 0);
    assert_eq!(ipv6_netmask(32), 0xffff_ffff_0000_0000_0000_0000_0000_0000);
    assert_eq!(ipv6_netmask(127), u128::MAX - 1);
    assert_eq!(ipv6_netmask(128), u128::MAX);
}

#[test]
fn prefix_length_is_checked() {
    let addr = Ipv4Address::new(10, 1, 1, 0);
    assert!(Ipv4Prefix::new(addr, 24).is_ok());
    assert!(Ipv4Prefix::new(addr, 32).is_ok());
    assert_eq!(Ipv4Prefix::new(addr, 33), Err(PrefixLenError));
    assert!(Ipv6Prefix::new(Ipv6Address(1), 128).is_ok());
    assert_eq!(Ipv6Prefix::new(Ipv6Address(1), 129), Err(PrefixLenError));
    assert_eq!(Prefix::new(IpAddress::V4(addr), 33), Err(PrefixLenError));
    assert!(Prefix::new(IpAddress::V6(Ipv6Address(1)), 33).is_ok());
    assert_eq!(Prefix::new(IpAddress::V6(Ipv6Address(1)), 200), Err(PrefixLenError));
}

#[test]
fn prefix_parts_and_text() {
    let net = Ipv4Prefix::new(Ipv4Address::new(10, 1, 0, 0), 20).unwrap();
    assert_eq!(net.addr(), Ipv4Address::new(10, 1, 0, 0));
    assert_eq!(net.prefix_len(), 20);
    assert_eq!(net.netmask(), Ipv4Address::new(255, 255, 240, 0));
    assert_eq!(net.to_text(), "10.1.0.0/20");
    let any = Prefix::V4(net);
    assert_eq!(any.addr(), IpAddress::V4(Ipv4Address::new(10, 1, 0, 0)));
    assert_eq!(any.prefix_len(), 20);
}

#[test]
fn network_addresses() {
    let v4 = |a, b, c, d| IpAddress::V4(Ipv4Address::new(a, b, c, d));
    assert!(check_network_address(&v4(1, 0, 2, 0), 23));
    assert!(!check_network_address(&v4(1, 0, 1, 0), 23));
    assert!(check_network_address(&v4(1, 0, 1, 5), 32));
    assert!(!check_network_address(&v4(1, 0, 1, 5), 24));
    assert!(!check_network_address(&v4(1, 0, 1, 0), 33));
    assert!(check_network_address(&v4(0, 0, 0, 0), 0));
    assert!(!check_network_address(&v4(128, 0, 0, 0), 0));
    let v6 = IpAddress::V6(Ipv6Address(0x2001_0250 << 96));
    assert!(check_network_address(&v6, 35));
    assert!(!check_network_address(&v6, 27));
    assert!(!check_network_address(&v6, 129));
}

#[test]
fn networks_are_read_from_text() {
    let net = Prefix::from_text("1.0.1.0/24").unwrap();
    assert_eq!(net, Prefix::V4(Ipv4Prefix::new(Ipv4Address::new(1, 0, 1, 0), 24).unwrap()));
    let net = Prefix::from_text("1.0.2.0/23").unwrap();
    assert_eq!(net.addr(), IpAddress::V4(Ipv4Address::new(1, 0, 2, 0)));
    assert_eq!(net.prefix_len(), 23);
    let net = Prefix::from_text("2001:250::/35").unwrap();
    assert_eq!(net.addr(), IpAddress::V6(Ipv6Address(0x2001_0250 << 96)));
    assert_eq!(net.prefix_len(), 35);
    let net = Prefix::from_text("::ffff:1.2.3.4/128").unwrap();
    assert_eq!(net.addr(), IpAddress::V6(Ipv6Address(0xffff_0102_0304)));
}

#[test]
fn texts_that_are_no_network() {
    for text in ["", "1.0.1.0", "1.0.1.0/33", "1.0.1/24", "1.0.1.256/24", "2001::/129", "x/1"] {
        assert_eq!(Prefix::from_text(text), Err(NetParseError));
    }
}
