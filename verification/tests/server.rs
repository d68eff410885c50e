use ddns_updater::config::Protocol;
use ddns_updater::ip::{IpAddr, Ipv4Addr, Ipv6Addr};
use ddns_updater::server::{
    endpoints, has_port, is_bare_literal, port_text, server_with_port, Endpoint, SocketAddr,
};

#[test]
fn server_without_port_gets_port_53() {
    assert_eq!(server_with_port("ns1.example.com", Protocol::Udp), "ns1.example.com:53");
    assert_eq!(server_with_port("ns1.example.com", Protocol::Tcp), "ns1.example.com:53");
}

#[test]
fn server_with_port_is_unmodified() {
    assert_eq!(server_with_port("ns1.example.com:8053", Protocol::Udp), "ns1.example.com:8053");
    assert_eq!(server_with_port("192.0.2.1:53", Protocol::Tcp), "192.0.2.1:53");
}

#[test]
fn bracketed_literal_with_port_is_unmodified() {
    assert_eq!(server_with_port("[2001:db8::1]:53", Protocol::Udp), "[2001:db8::1]:53");
    assert_eq!(server_with_port("[2001:db8::1]:8053", Protocol::Tcp), "[2001:db8::1]:8053");
    assert_eq!(server_with_port("[::1]:53", Protocol::Udp), "[::1]:53");
}

#[test]
fn bare_ipv6_literal_gets_brackets_and_port_53() {
    assert_eq!(server_with_port("2001:db8::1", Protocol::Udp), "[2001:db8::1]:53");
    assert_eq!(server_with_port("::1", Protocol::Udp), "[::1]:53");
    assert_eq!(server_with_port("::", Protocol::Tcp), "[::]:53");
    assert_eq!(server_with_port("fe80::1:2:3", Protocol::Udp), "[fe80::1:2:3]:53");
}

#[test]
fn bracketed_literal_without_port_gets_port_53() {
    assert_eq!(server_with_port("[2001:db8::1]", Protocol::Udp), "[2001:db8::1]:53");
    assert_eq!(server_with_port("[::1]", Protocol::Udp), "[::1]:53");
}

#[test]
fn empty_server_gets_only_the_port() {
    assert_eq!(server_with_port("", Protocol::Udp), ":53");
}

#[test]
fn has_port_tells_a_port_from_the_colons_of_an_address() {
    assert!(has_port("a:1"));
    assert!(has_port("ns1.example.com:8053"));
    assert!(has_port("192.0.2.1:53"));
    assert!(has_port("h\u{e9}te:53"));
    assert!(has_port("[::1]:53"));
    assert!(has_port("[2001:db8::1]:8053"));
    assert!(!has_port("ns1.example.com"));
    assert!(!has_port(""));
    assert!(!has_port("::1"));
    assert!(!has_port("2001:db8::1"));
    assert!(!has_port("[::1]"));
    assert!(!has_port("[2001:db8::1]"));
}

#[test]
fn bare_literal_has_several_colons_and_no_bracket() {
    assert!(is_bare_literal("::1"));
    assert!(is_bare_literal("2001:db8::1"));
    assert!(!is_bare_literal("[2001:db8::1]"));
    assert!(!is_bare_literal("[2001:db8::1]:53"));
    assert!(!is_bare_literal("ns1.example.com:53"));
    assert!(!is_bare_literal("ns1.example.com"));
    assert!(!is_bare_literal(""));
}

#[test]
fn port_text_is_decimal() {
    assert_eq!(port_text(0), "0");
    assert_eq!(port_text(7), "7");
    assert_eq!(port_text(53), "53");
    assert_eq!(port_text(100), "100");
    assert_eq!(port_text(8053), "8053");
    assert_eq!(port_text(65535), "65535");
}

#[test]
fn port_text_agrees_with_std_on_every_port() {
    let mut port: u16 = 0;
    loop {
        assert_eq!(port_text(port), port.to_string());
        if port == u16::MAX {
            break;
        }
        port += 1;
    }
}

#[test]
fn endpoints_keep_the_order_of_resolution() {
    let a = IpAddr::V4(Ipv4Addr::new(192, 0, 2, 2));
    let b = IpAddr::V6(Ipv6Addr::new([0x2001, 0xdb8, 0, 0, 0, 0, 0, 1]));
    let c = IpAddr::V4(Ipv4Addr::new(192, 0, 2, 1));
    let found = vec![
        SocketAddr { ip: a, port: 53 },
        SocketAddr { ip: b, port: 8053 },
        SocketAddr { ip: c, port: 53 },
    ];
    assert_eq!(
        endpoints(&found, Protocol::Tcp),
        vec![
            Endpoint { ip: a, port: 53, protocol: Protocol::Tcp },
            Endpoint { ip: b, port: 8053, protocol: Protocol::Tcp },
            Endpoint { ip: c, port: 53, protocol: Protocol::Tcp },
        ]
    );
}

#[test]
fn endpoints_of_nothing_are_none() {
    assert_eq!(endpoints(&Vec::new(), Protocol::Udp), Vec::new());
}
