use nets_monitor::address::{
    address_from_raw, classify, infer_direction, port_from_raw, push_ipv4, read_ipv4, read_ipv6,
    AddressClass,
};
use nets_monitor::text::chars_of;
use nets_monitor::{FlowDirection, FlowEvent, LocalProtocol, ProtocolDetector, Timestamp};

fn utc_now() -> Timestamp {
    let now = chrono::Utc::now();
    Timestamp::new(now.timestamp(), now.timestamp_subsec_nanos())
}

fn flow(proto: &str, src_port: u16, dst_ip: &str, dst_port: u16) -> FlowEvent {
    FlowEvent {
        proto: proto.into(),
        src_ip: "192.168.1.100".into(),
        src_port,
        dst_ip: dst_ip.into(),
        dst_port,
        direction: FlowDirection::Outbound,
        ..FlowEvent::default()
    }
}

#[test]
fn test_mdns_detection() {
    let flow = FlowEvent {
        ts_first: utc_now(),
        ts_last: utc_now(),
        proto: "UDP".into(),
        src_ip: "192.168.1.100".into(),
        src_port: 5353,
        dst_ip: "224.0.0.251".into(),
        dst_port: 5353,
        direction: FlowDirection::Outbound,
        ..FlowEvent::default()
    };

    assert_eq!(
        ProtocolDetector::detect_protocol(&flow),
        Some(LocalProtocol::MDNS)
    );
}

#[test]
fn test_smb_detection() {
    let flow = FlowEvent {
        ts_first: utc_now(),
        ts_last: utc_now(),
        proto: "TCP".into(),
        src_ip: "192.168.1.100".into(),
        src_port: 49152,
        dst_ip: "192.168.1.10".into(),
        dst_port: 445,
        direction: FlowDirection::Lateral,
        ..FlowEvent::default()
    };

    assert_eq!(
        ProtocolDetector::detect_protocol(&flow),
        Some(LocalProtocol::SMB)
    );
}

#[test]
fn test_private_network() {
    assert!(ProtocolDetector::is_private_network("192.168.1.1"));
    assert!(ProtocolDetector::is_private_network("10.0.0.1"));
    assert!(ProtocolDetector::is_private_network("172.16.0.1"));
    assert!(!ProtocolDetector::is_private_network("8.8.8.8"));
}

#[test]
fn private_network_covers_every_listed_range() {
    assert!(ProtocolDetector::is_private_network("172.31.255.255"));
    assert!(!ProtocolDetector::is_private_network("172.32.0.1"));
    assert!(!ProtocolDetector::is_private_network("172.15.0.1"));
    assert!(ProtocolDetector::is_private_network("169.254.10.10"));
    assert!(ProtocolDetector::is_private_network("127.0.0.1"));
    assert!(!ProtocolDetector::is_private_network("192.169.0.1"));
    assert!(ProtocolDetector::is_private_network("fe80::1"));
    assert!(ProtocolDetector::is_private_network("febf::1"));
    assert!(!ProtocolDetector::is_private_network("fec0::1"));
    assert!(ProtocolDetector::is_private_network("fc00::1"));
    assert!(ProtocolDetector::is_private_network("fdff:ffff::"));
    assert!(ProtocolDetector::is_private_network("::1"));
    assert!(!ProtocolDetector::is_private_network("::2"));
    assert!(!ProtocolDetector::is_private_network("2001:db8::1"));
    assert!(!ProtocolDetector::is_private_network("not an address"));
    assert!(!ProtocolDetector::is_private_network(""));
    assert!(!ProtocolDetector::is_private_network("10.0.0"));
    assert!(!ProtocolDetector::is_private_network("10.0.0.256"));
    assert!(!ProtocolDetector::is_private_network("010.0.0.1"));
}

#[test]
fn multicast_protocols_need_port_and_group() {
    assert_eq!(
        ProtocolDetector::detect_protocol(&flow("UDP", 40000, "ff02::fb", 5353)),
        Some(LocalProtocol::MDNS)
    );
    assert_eq!(ProtocolDetector::detect_protocol(&flow("UDP", 5353, "10.0.0.7", 5353)), None);
    assert_eq!(
        ProtocolDetector::detect_protocol(&flow("UDP", 5355, "224.0.0.252", 40000)),
        Some(LocalProtocol::LLMNR)
    );
    assert_eq!(
        ProtocolDetector::detect_protocol(&flow("UDP", 40000, "ff02::1:3", 5355)),
        Some(LocalProtocol::LLMNR)
    );
    assert_eq!(ProtocolDetector::detect_protocol(&flow("UDP", 40000, "224.0.0.251", 5355)), None);
    assert_eq!(
        ProtocolDetector::detect_protocol(&flow("UDP", 40000, "239.255.255.250", 1900)),
        Some(LocalProtocol::SSDP)
    );
    assert_eq!(
        ProtocolDetector::detect_protocol(&flow("UDP", 1900, "ff02::c", 40000)),
        Some(LocalProtocol::SSDP)
    );
    assert_eq!(ProtocolDetector::detect_protocol(&flow("UDP", 40000, "10.0.0.1", 1900)), None);
    assert_eq!(ProtocolDetector::detect_protocol(&flow("TCP", 5353, "224.0.0.251", 5353)), None);
}

#[test]
fn single_port_protocols_match_either_side() {
    assert_eq!(
        ProtocolDetector::detect_protocol(&flow("TCP", 445, "10.0.0.1", 50000)),
        Some(LocalProtocol::SMB)
    );
    assert_eq!(
        ProtocolDetector::detect_protocol(&flow("TCP", 50000, "10.0.0.1", 3389)),
        Some(LocalProtocol::RDP)
    );
    assert_eq!(
        ProtocolDetector::detect_protocol(&flow("TCP", 389, "10.0.0.1", 50000)),
        Some(LocalProtocol::LDAP)
    );
    assert_eq!(
        ProtocolDetector::detect_protocol(&flow("TCP", 50000, "10.0.0.1", 636)),
        Some(LocalProtocol::LDAPS)
    );
    assert_eq!(
        ProtocolDetector::detect_protocol(&flow("TCP", 88, "10.0.0.1", 50000)),
        Some(LocalProtocol::Kerberos)
    );
    assert_eq!(
        ProtocolDetector::detect_protocol(&flow("UDP", 50000, "10.0.0.1", 88)),
        Some(LocalProtocol::Kerberos)
    );
    assert_eq!(
        ProtocolDetector::detect_protocol(&flow("TCP", 50000, "10.0.0.1", 53)),
        Some(LocalProtocol::DNS)
    );
    assert_eq!(
        ProtocolDetector::detect_protocol(&flow("UDP", 53, "10.0.0.1", 50000)),
        Some(LocalProtocol::DNS)
    );
    assert_eq!(
        ProtocolDetector::detect_protocol(&flow("TCP", 50000, "10.0.0.1", 139)),
        Some(LocalProtocol::NBSession)
    );
    assert_eq!(
        ProtocolDetector::detect_protocol(&flow("UDP", 137, "10.0.0.1", 50000)),
        Some(LocalProtocol::NBNS)
    );
    assert_eq!(
        ProtocolDetector::detect_protocol(&flow("UDP", 50000, "10.0.0.1", 138)),
        Some(LocalProtocol::NBDatagam)
    );
}

#[test]
fn wins_is_told_by_port_42_on_either_transport() {
    assert_eq!(
        ProtocolDetector::detect_protocol(&flow("TCP", 50000, "10.0.0.2", 42)),
        Some(LocalProtocol::WINS)
    );
    assert_eq!(
        ProtocolDetector::detect_protocol(&flow("UDP", 50000, "10.0.0.2", 42)),
        Some(LocalProtocol::WINS)
    );
    assert_eq!(
        ProtocolDetector::detect_protocol(&flow("TCP", 42, "10.0.0.2", 50000)),
        Some(LocalProtocol::WINS)
    );
    assert_eq!(
        ProtocolDetector::detect_protocol(&flow("UDP", 42, "10.0.0.2", 50000)),
        Some(LocalProtocol::WINS)
    );
    assert_eq!(
        ProtocolDetector::detect_protocol(&flow("TCP", 42, "10.0.0.2", 88)),
        Some(LocalProtocol::Kerberos)
    );
    assert_eq!(
        ProtocolDetector::detect_protocol(&flow("UDP", 42, "10.0.0.2", 53)),
        Some(LocalProtocol::DNS)
    );
    assert_eq!(ProtocolDetector::detect_protocol(&flow("ICMP", 50000, "10.0.0.2", 42)), None);
    assert!(!ProtocolDetector::is_local_discovery(&flow("UDP", 42, "10.0.0.2", 42)));
}

#[test]
fn dhcp_needs_both_ports() {
    assert_eq!(
        ProtocolDetector::detect_protocol(&flow("UDP", 68, "255.255.255.255", 67)),
        Some(LocalProtocol::DHCP)
    );
    assert_eq!(
        ProtocolDetector::detect_protocol(&flow("UDP", 67, "10.0.0.9", 68)),
        Some(LocalProtocol::DHCP)
    );
    assert_eq!(ProtocolDetector::detect_protocol(&flow("UDP", 68, "10.0.0.9", 50000)), None);
}

#[test]
fn earlier_lines_of_the_table_win() {
    assert_eq!(
        ProtocolDetector::detect_protocol(&flow("TCP", 445, "10.0.0.1", 3389)),
        Some(LocalProtocol::SMB)
    );
    assert_eq!(
        ProtocolDetector::detect_protocol(&flow("UDP", 137, "10.0.0.1", 53)),
        Some(LocalProtocol::NBNS)
    );
    assert_eq!(
        ProtocolDetector::detect_protocol(&flow("UDP", 5353, "224.0.0.251", 53)),
        Some(LocalProtocol::MDNS)
    );
}

#[test]
fn other_transports_have_no_tag() {
    assert_eq!(ProtocolDetector::detect_protocol(&flow("ICMP", 445, "10.0.0.1", 445)), None);
    assert_eq!(ProtocolDetector::detect_protocol(&flow("tcp", 445, "10.0.0.1", 445)), None);
    assert_eq!(ProtocolDetector::detect_protocol(&flow("SCTP", 42, "10.0.0.1", 42)), None);
    assert_eq!(ProtocolDetector::detect_protocol(&FlowEvent::default()), None);
}

#[test]
fn classification_is_idempotent() {
    let f = flow("UDP", 5353, "224.0.0.251", 5353);
    assert_eq!(ProtocolDetector::detect_protocol(&f), ProtocolDetector::detect_protocol(&f));
}

#[test]
fn dns_flows_and_local_discovery() {
    assert!(ProtocolDetector::is_dns_flow(&flow("UDP", 53, "1.1.1.1", 50000)));
    assert!(ProtocolDetector::is_dns_flow(&flow("UDP", 50000, "1.1.1.1", 53)));
    assert!(ProtocolDetector::is_dns_flow(&flow("UDP", 50000, "1.1.1.1", 5353)));
    assert!(ProtocolDetector::is_dns_flow(&flow("UDP", 50000, "1.1.1.1", 5355)));
    assert!(!ProtocolDetector::is_dns_flow(&flow("UDP", 5353, "1.1.1.1", 50000)));
    assert!(ProtocolDetector::is_local_discovery(&flow("UDP", 5353, "224.0.0.251", 5353)));
    assert!(ProtocolDetector::is_local_discovery(&flow("UDP", 137, "10.0.0.1", 137)));
    assert!(!ProtocolDetector::is_local_discovery(&flow("UDP", 53, "10.0.0.1", 53)));
    assert!(!ProtocolDetector::is_local_discovery(&flow("TCP", 445, "10.0.0.1", 445)));
}

#[test]
fn names_and_descriptions() {
    assert_eq!(LocalProtocol::MDNS.as_str(), "mDNS");
    assert_eq!(LocalProtocol::NBDatagam.as_str(), "NB-DGRAM");
    assert_eq!(LocalProtocol::NBSession.as_str(), "NB-SESSION");
    assert_eq!(LocalProtocol::WINS.as_str(), "WINS");
    assert_eq!(LocalProtocol::Kerberos.as_str(), "Kerberos");
    assert_eq!(
        ProtocolDetector::protocol_description(LocalProtocol::SMB),
        "Server Message Block - File sharing"
    );
    assert_eq!(
        ProtocolDetector::protocol_description(LocalProtocol::SSDP),
        "Simple Service Discovery Protocol (UPnP)"
    );
    assert_eq!(ProtocolDetector::MDNS_PORT, 5353);
    assert_eq!(ProtocolDetector::WINS_PORT, 42);
}

#[test]
fn direction_follows_the_address_classes() {
    assert_eq!(infer_direction("10.0.0.1", "0.0.0.0"), FlowDirection::Inbound);
    assert_eq!(infer_direction("fe80::1", "::"), FlowDirection::Inbound);
    assert_eq!(infer_direction("0.0.0.0", "*"), FlowDirection::Inbound);
    assert_eq!(infer_direction("garbage", "0.0.0.0"), FlowDirection::Inbound);
    assert_eq!(infer_direction("10.0.0.1", "10.200.3.4"), FlowDirection::Lateral);
    assert_eq!(infer_direction("10.0.0.1", "192.168.1.1"), FlowDirection::Lateral);
    assert_eq!(infer_direction("172.16.0.1", "172.31.0.1"), FlowDirection::Lateral);
    assert_eq!(infer_direction("169.254.1.1", "169.254.2.2"), FlowDirection::Lateral);
    assert_eq!(infer_direction("127.0.0.1", "127.0.0.1"), FlowDirection::Lateral);
    assert_eq!(infer_direction("fe80::1", "fe80::2"), FlowDirection::Lateral);
    assert_eq!(infer_direction("fd00::1", "10.0.0.1"), FlowDirection::Lateral);
    assert_eq!(infer_direction("10.0.0.1", "127.0.0.1"), FlowDirection::Lateral);
    assert_eq!(infer_direction("10.0.0.1", "169.254.1.1"), FlowDirection::Lateral);
    assert_eq!(infer_direction("169.254.1.1", "172.20.0.9"), FlowDirection::Lateral);
    assert_eq!(infer_direction("127.0.0.1", "fe80::1"), FlowDirection::Lateral);
    assert_eq!(infer_direction("::1", "fd00::1"), FlowDirection::Lateral);
    assert_eq!(infer_direction("2001:db8::1", "fd00::1"), FlowDirection::Outbound);
    assert_eq!(infer_direction("10.0.0.1", "8.8.8.8"), FlowDirection::Outbound);
    assert_eq!(infer_direction("8.8.8.8", "10.0.0.1"), FlowDirection::Outbound);
    assert_eq!(infer_direction("10.0.0.1", "example.org"), FlowDirection::Outbound);
    assert_eq!(infer_direction("10.0.0.1", "0.0.0.00"), FlowDirection::Outbound);
    assert_eq!(infer_direction("10.0.0.1", ""), FlowDirection::Outbound);
}

#[test]
fn address_classes() {
    assert_eq!(classify("10.1.2.3"), Some(AddressClass::Private));
    assert_eq!(classify("169.254.0.1"), Some(AddressClass::LinkLocal));
    assert_eq!(classify("127.9.9.9"), Some(AddressClass::Loopback));
    assert_eq!(classify("fe80::abcd"), Some(AddressClass::LinkLocal));
    assert_eq!(classify("FD12:3456::1"), Some(AddressClass::Private));
    assert_eq!(classify("0:0:0:0:0:0:0:1"), Some(AddressClass::Loopback));
    assert_eq!(classify("1.2.3.4"), None);
}

#[test]
fn ipv4_text_is_read_strictly() {
    assert_eq!(read_ipv4(&chars_of("192.168.1.10")), Some((192, 168, 1, 10)));
    assert_eq!(read_ipv4(&chars_of("0.0.0.0")), Some((0, 0, 0, 0)));
    assert_eq!(read_ipv4(&chars_of("255.255.255.255")), Some((255, 255, 255, 255)));
    assert_eq!(read_ipv4(&chars_of("256.0.0.1")), None);
    assert_eq!(read_ipv4(&chars_of("1.2.3")), None);
    assert_eq!(read_ipv4(&chars_of("1.2.3.4.5")), None);
    assert_eq!(read_ipv4(&chars_of("1.2.3.")), None);
    assert_eq!(read_ipv4(&chars_of("01.2.3.4")), None);
    assert_eq!(read_ipv4(&chars_of("1.2.3.4 ")), None);
    assert_eq!(read_ipv4(&chars_of("+1.2.3.4")), None);
    assert_eq!(read_ipv4(&chars_of("1.2.3.0004")), None);
    assert_eq!(read_ipv4(&chars_of("")), None);
}

#[test]
fn ipv6_text_is_read_with_gaps_and_quads() {
    assert_eq!(read_ipv6(&chars_of("::")), Some(vec![0, 0, 0, 0, 0, 0, 0, 0]));
    assert_eq!(read_ipv6(&chars_of("::1")), Some(vec![0, 0, 0, 0, 0, 0, 0, 1]));
    assert_eq!(read_ipv6(&chars_of("1::")), Some(vec![1, 0, 0, 0, 0, 0, 0, 0]));
    assert_eq!(
        read_ipv6(&chars_of("2001:db8::ff00:42:8329")),
        Some(vec![0x2001, 0xdb8, 0, 0, 0, 0xff00, 0x42, 0x8329])
    );
    assert_eq!(
        read_ipv6(&chars_of("1:2:3:4:5:6:7:8")),
        Some(vec![1, 2, 3, 4, 5, 6, 7, 8])
    );
    assert_eq!(
        read_ipv6(&chars_of("1:2:3:4:5:6:7::")),
        Some(vec![1, 2, 3, 4, 5, 6, 7, 0])
    );
    assert_eq!(
        read_ipv6(&chars_of("::ffff:192.168.1.10")),
        Some(vec![0, 0, 0, 0, 0, 0xffff, 0xc0a8, 0x010a])
    );
    assert_eq!(
        read_ipv6(&chars_of("1:2:3:4:5:6:1.2.3.4")),
        Some(vec![1, 2, 3, 4, 5, 6, 0x0102, 0x0304])
    );
    assert_eq!(read_ipv6(&chars_of("FE80::AbCd")), Some(vec![0xfe80, 0, 0, 0, 0, 0, 0, 0xabcd]));
    assert_eq!(read_ipv6(&chars_of("")), None);
    assert_eq!(read_ipv6(&chars_of(":")), None);
    assert_eq!(read_ipv6(&chars_of(":::")), None);
    assert_eq!(read_ipv6(&chars_of("1:2:3:4:5:6:7")), None);
    assert_eq!(read_ipv6(&chars_of("1:2:3:4:5:6:7:8:9")), None);
    assert_eq!(read_ipv6(&chars_of("1:2:3:4::5:6:7:8")), None);
    assert_eq!(read_ipv6(&chars_of("1::2::3")), None);
    assert_eq!(read_ipv6(&chars_of("12345::")), None);
    assert_eq!(read_ipv6(&chars_of("g::")), None);
    assert_eq!(read_ipv6(&chars_of("1.2.3.4::")), None);
    assert_eq!(read_ipv6(&chars_of("1:2:3:4:5:6:7:1.2.3.4")), None);
    assert_eq!(read_ipv6(&chars_of("fe80::1%eth0")), None);
    assert_eq!(read_ipv6(&chars_of("1:2:3:4:5:6:7:")), None);
    assert_eq!(read_ipv6(&chars_of(":1:2:3:4:5:6:7")), None);
}

#[test]
fn addresses_are_read_in_network_byte_order() {
    assert_eq!(address_from_raw(0x0100_007F), "127.0.0.1");
    assert_eq!(address_from_raw(0x0A01_A8C0), "192.168.1.10");
    assert_eq!(address_from_raw(0), "0.0.0.0");
    assert_eq!(address_from_raw(u32::MAX), "255.255.255.255");
    assert_eq!(address_from_raw(u32::from_ne_bytes([10, 0, 0, 5]).to_le()), "10.0.0.5");
    let mut text = String::from("addr=");
    push_ipv4(&mut text, 8, 8, 4, 4);
    assert_eq!(text, "addr=8.8.4.4");
    for raw in [0x0100_007Fu32, 0x0802_0101, 0xFFFF_FFFF, 0x0000_0001] {
        let text = address_from_raw(raw);
        let chars: Vec<char> = text.chars().collect();
        let b = raw.to_le_bytes();
        assert_eq!(read_ipv4(&chars), Some((b[0], b[1], b[2], b[3])));
    }
}

#[test]
fn ports_are_read_in_network_byte_order() {
    assert_eq!(port_from_raw(0x0000_5000), 80);
    assert_eq!(port_from_raw(0x0000_BB01), 443);
    assert_eq!(port_from_raw(0x0000_0035 << 8), 53);
    assert_eq!(port_from_raw(0), 0);
    assert_eq!(port_from_raw(0xFFFF), 0xFFFF);
    assert_eq!(port_from_raw(0x1234), 0x3412);
    assert_eq!(port_from_raw(0x00AB_1234), 0x3412);
    let mut w: u32 = 0;
    while w <= 0xFFFF {
        assert_eq!(port_from_raw(w) as u32, ((w >> 8) | (w << 8)) & 0xFFFF);
        assert_eq!(port_from_raw(w), (w as u16).swap_bytes());
        w += 1;
    }
}
