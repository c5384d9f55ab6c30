use daemon_config::address::{parse_ip, parse_ipv4, parse_ipv6, write_ip, write_ipv4, write_ipv6};
use daemon_config::{IpAddress, Ipv4Address, Ipv6Address};

fn chars(text: &str) -> Vec<char> {
    text.chars().collect()
}

fn text(chars: Vec<char>) -> String {
    chars.into_iter().collect()
}

fn v6(text: &str) -> Option<Ipv6Address> {
    parse_ipv6(&chars(text))
}

#[test]
fn dotted_quads() {
    assert_eq!(parse_ipv4(&chars("127.0.0.1")), Some(Ipv4Address::new(127, 0, 0, 1)));
    assert_eq!(parse_ipv4(&chars("0.0.0.0")), Some(Ipv4Address::new(0, 0, 0, 0)));
    assert_eq!(parse_ipv4(&chars("255.255.255.255")), Some(Ipv4Address::new(255, 255, 255, 255)));
    for bad in [
        "", "1", "1.2.3", "1.2.3.4.5", "256.0.0.1", "1.2.3.256", "01.2.3.4", "1.2.3.04", "1..3.4",
        ".1.2.3", "1.2.3.", "1.2.3.4 ", " 1.2.3.4", "a.b.c.d", "1.2.3.-4", "1,2,3,4", "0x1.2.3.4",
        "1.2.3.1000",
    ] {
        assert_eq!(parse_ipv4(&chars(bad)), None, "{}", bad);
    }
}

#[test]
fn ipv6_in_full() {
    assert_eq!(v6("1:2:3:4:5:6:7:8"), Some(Ipv6Address::new(1, 2, 3, 4, 5, 6, 7, 8)));
    assert_eq!(
        v6("2001:0db8:0000:0000:0000:ff00:0042:8329"),
        Some(Ipv6Address::new(0x2001, 0xdb8, 0, 0, 0, 0xff00, 0x42, 0x8329))
    );
    assert_eq!(
        v6("FFFF:ffff:FfFf:0:0:0:0:AbCd"),
        Some(Ipv6Address::new(0xffff, 0xffff, 0xffff, 0, 0, 0, 0, 0xabcd))
    );
}

#[test]
fn ipv6_with_a_gap() {
    assert_eq!(v6("::"), Some(Ipv6Address::new(0, 0, 0, 0, 0, 0, 0, 0)));
    assert_eq!(v6("::1"), Some(Ipv6Address::new(0, 0, 0, 0, 0, 0, 0, 1)));
    assert_eq!(v6("1::"), Some(Ipv6Address::new(1, 0, 0, 0, 0, 0, 0, 0)));
    assert_eq!(v6("fe80::1"), Some(Ipv6Address::new(0xfe80, 0, 0, 0, 0, 0, 0, 1)));
    assert_eq!(v6("1:2::7:8"), Some(Ipv6Address::new(1, 2, 0, 0, 0, 0, 7, 8)));
    assert_eq!(v6("1:2:3:4:5:6:7::"), Some(Ipv6Address::new(1, 2, 3, 4, 5, 6, 7, 0)));
    assert_eq!(v6("::2:3:4:5:6:7:8"), Some(Ipv6Address::new(0, 2, 3, 4, 5, 6, 7, 8)));
    assert_eq!(v6("1:2:3::5:6:7:8"), Some(Ipv6Address::new(1, 2, 3, 0, 5, 6, 7, 8)));
}

#[test]
fn ipv6_with_a_dotted_quad() {
    assert_eq!(v6("::ffff:1.2.3.4"), Some(Ipv6Address::new(0, 0, 0, 0, 0, 0xffff, 0x0102, 0x0304)));
    assert_eq!(v6("1:2:3:4:5:6:7.8.9.10"), Some(Ipv6Address::new(1, 2, 3, 4, 5, 6, 0x0708, 0x090a)));
    assert_eq!(v6("::255.255.255.255"), Some(Ipv6Address::new(0, 0, 0, 0, 0, 0, 0xffff, 0xffff)));
    assert_eq!(v6("64:ff9b::192.0.2.33"), Some(Ipv6Address::new(0x64, 0xff9b, 0, 0, 0, 0, 0xc000, 0x0221)));
    assert_eq!(v6("1.2.3.4::"), None);
    assert_eq!(v6("::1.2.3.4:5"), None);
    assert_eq!(v6("1:2:3:4:5:6:7:1.2.3.4"), None);
    assert_eq!(v6("::1.2.3"), None);
}

#[test]
fn no_ipv6() {
    for bad in [
        "", ":", ":::", "1", "1:2:3:4:5:6:7", "1:2:3:4:5:6:7:8:9", "1:2:3:4:5:6:7:8::", "::1::",
        "1::2::3", ":1:2:3:4:5:6:7", "1:2:3:4:5:6:7:", "12345::", "g::", "::1 ", " ::1", "1:2:3:4:5:6:7:8:",
        "::1%eth0", "[::1]", "1:2:3:4::5:6:7:8", "-1::",
    ] {
        assert_eq!(v6(bad), None, "{}", bad);
    }
}

#[test]
fn either_family() {
    assert_eq!(parse_ip(&chars("10.0.0.1")), Some(IpAddress::V4(Ipv4Address::new(10, 0, 0, 1))));
    assert_eq!(parse_ip(&chars("::1")), Some(IpAddress::V6(Ipv6Address::new(0, 0, 0, 0, 0, 0, 0, 1))));
    assert_eq!(parse_ip(&chars("bad-ip")), None);
    assert_eq!(parse_ip(&chars("")), None);
}

#[test]
fn texts_of_addresses() {
    assert_eq!(text(write_ipv4(Ipv4Address::new(127, 0, 0, 1))), "127.0.0.1");
    assert_eq!(text(write_ipv4(Ipv4Address::new(255, 100, 10, 0))), "255.100.10.0");
    assert_eq!(text(write_ipv6(Ipv6Address::new(0, 0, 0, 0, 0, 0, 0, 1))), "0:0:0:0:0:0:0:1");
    assert_eq!(
        text(write_ipv6(Ipv6Address::new(0x2001, 0xdb8, 0, 0x10, 0, 0xff00, 0x42, 0xffff))),
        "2001:db8:0:10:0:ff00:42:ffff"
    );
    assert_eq!(text(write_ip(IpAddress::V4(Ipv4Address::new(1, 2, 3, 4)))), "1.2.3.4");
    assert_eq!(
        text(write_ip(IpAddress::V6(Ipv6Address::new(1, 2, 3, 4, 5, 6, 7, 8)))),
        "1:2:3:4:5:6:7:8"
    );
}

#[test]
fn texts_of_addresses_read_back() {
    let quads = [Ipv4Address::new(0, 0, 0, 0), Ipv4Address::new(9, 99, 199, 255), Ipv4Address::new(10, 20, 30, 40)];
    for quad in quads {
        assert_eq!(parse_ipv4(&write_ipv4(quad)), Some(quad));
        assert_eq!(parse_ip(&write_ip(IpAddress::V4(quad))), Some(IpAddress::V4(quad)));
    }
    let wide = [
        Ipv6Address::new(0, 0, 0, 0, 0, 0, 0, 0),
        Ipv6Address::new(0xffff, 0xffff, 0xffff, 0xffff, 0xffff, 0xffff, 0xffff, 0xffff),
        Ipv6Address::new(0, 1, 0x10, 0x100, 0x1000, 0xf, 0xf0, 0xf00),
    ];
    for address in wide {
        assert_eq!(parse_ipv6(&write_ipv6(address)), Some(address));
        assert_eq!(parse_ip(&write_ip(IpAddress::V6(address))), Some(IpAddress::V6(address)));
    }
}
