use frame_decode::address::not_applicable_text;
use frame_decode::headers::{
    decode_ipv4, ArpHeader, EthernetHeader, Ipv4Header, Ipv6Header, PortPair,
};
use frame_decode::info_packet::layer_3_infos::{get_layer_3_infos, Layer3Infos};
use frame_decode::info_packet::{
    decode_layer_3, handle_next_proto_util, process_packet_by_type, ArpHandler, FrameReport,
    HandleNextProto, Ipv4Handler, Ipv6Handler, Layer3, NextProto,
};

const DEST_MAC: [u8; 6] = [0xAA, 0xBB, 0xCC, 0xDD, 0xEE, 0xFF];
const SRC_MAC: [u8; 6] = [0x11, 0x22, 0x33, 0x44, 0x55, 0x66];

fn ethernet(ethertype: u16, payload: &[u8]) -> Vec<u8> {
    let mut frame = Vec::new();
    frame.extend_from_slice(&DEST_MAC);
    frame.extend_from_slice(&SRC_MAC);
    frame.extend_from_slice(&ethertype.to_be_bytes());
    frame.extend_from_slice(payload);
    frame
}

fn ipv4(words: u8, protocol: u8, src: [u8; 4], dst: [u8; 4], rest: &[u8]) -> Vec<u8> {
    let total = (20 + rest.len()) as u16;
    let mut p = vec![0x40 | words, 0x00];
    p.extend_from_slice(&total.to_be_bytes());
    p.extend_from_slice(&[0x12, 0x34, 0x40, 0x00, 64, protocol, 0xAB, 0xCD]);
    p.extend_from_slice(&src);
    p.extend_from_slice(&dst);
    p.extend_from_slice(rest);
    p
}

fn tcp(sport: u16, dport: u16) -> Vec<u8> {
    let mut t = Vec::new();
    t.extend_from_slice(&sport.to_be_bytes());
    t.extend_from_slice(&dport.to_be_bytes());
    t.extend_from_slice(&[0, 0, 0, 1, 0, 0, 0, 2, 0x50, 0x18, 0xFF, 0xFF, 0, 0, 0, 0]);
    t
}

fn udp(sport: u16, dport: u16) -> Vec<u8> {
    let mut u = Vec::new();
    u.extend_from_slice(&sport.to_be_bytes());
    u.extend_from_slice(&dport.to_be_bytes());
    u.extend_from_slice(&[0, 8, 0, 0]);
    u
}

fn ipv6(next: u8, src: [u8; 16], dst: [u8; 16], rest: &[u8]) -> Vec<u8> {
    let mut p = vec![0x60, 0, 0, 0];
    p.extend_from_slice(&(rest.len() as u16).to_be_bytes());
    p.push(next);
    p.push(64);
    p.extend_from_slice(&src);
    p.extend_from_slice(&dst);
    p.extend_from_slice(rest);
    p
}

fn infos(source: &str, destination: &str) -> Layer3Infos {
    Layer3Infos { ip_source: source.to_string(), ip_destination: destination.to_string() }
}

fn network(report: FrameReport) -> Layer3 {
    match report {
        FrameReport::Decoded { network, .. } => network,
        FrameReport::Rejected { length } => panic!("rejected a frame of {} bytes", length),
    }
}

const LOOPBACK6: [u8; 16] = [0, 0, 0, 0, 0, 0, 0, 0, 0, 0, 0, 0, 0, 0, 0, 1];
const DOC6: [u8; 16] = [0x20, 0x01, 0x0d, 0xb8, 0, 0, 0, 0, 0, 0, 0, 0, 0, 0, 0xab, 0xcd];
const FULL6: [u8; 16] = [
    0x20, 0x01, 0x0d, 0xb8, 0x00, 0x01, 0x00, 0x02, 0x00, 0x03, 0x00, 0x04, 0x00, 0x05, 0x00, 0x06,
];

#[test]
fn ipv4_tcp_frame_is_summarised_by_its_addresses() {
    let frame = ethernet(0x0800, &ipv4(5, 6, [192, 168, 1, 10], [8, 8, 8, 8], &tcp(443, 51000)));
    assert_eq!(frame.len(), 54);
    assert_eq!(get_layer_3_infos(&frame), infos("192.168.1.10", "8.8.8.8"));
}

#[test]
fn ipv4_tcp_frame_reports_headers_and_ports() {
    let frame = ethernet(0x0800, &ipv4(5, 6, [192, 168, 1, 10], [8, 8, 8, 8], &tcp(443, 51000)));
    let expected = FrameReport::Decoded {
        ethernet: EthernetHeader { destination: DEST_MAC, source: SRC_MAC, ethertype: 0x0800 },
        network: Layer3::Ipv4(
            Ipv4Header {
                source: [192, 168, 1, 10],
                destination: [8, 8, 8, 8],
                next_protocol: 6,
                total_length: 40,
                header_words: 5,
            },
            NextProto::Tcp(PortPair { source: 443, destination: 51000 }),
        ),
    };
    assert_eq!(process_packet_by_type(&frame), expected);
    assert_eq!(expected.summary(), infos("192.168.1.10", "8.8.8.8"));
}

#[test]
fn summary_does_not_depend_on_tcp_fields() {
    let a = ethernet(0x0800, &ipv4(5, 6, [10, 0, 100, 9], [172, 16, 0, 254], &tcp(1, 2)));
    let mut other = tcp(65535, 80);
    other[13] = 0x02;
    other.extend_from_slice(b"payload bytes");
    let b = ethernet(0x0800, &ipv4(5, 6, [10, 0, 100, 9], [172, 16, 0, 254], &other));
    assert_eq!(get_layer_3_infos(&a), infos("10.0.100.9", "172.16.0.254"));
    assert_eq!(get_layer_3_infos(&a), get_layer_3_infos(&b));
}

#[test]
fn dotted_decimal_has_no_padding() {
    let frame = ethernet(0x0800, &ipv4(5, 1, [0, 0, 0, 0], [255, 255, 255, 255], &[]));
    assert_eq!(get_layer_3_infos(&frame), infos("0.0.0.0", "255.255.255.255"));
    let frame = ethernet(0x0800, &ipv4(5, 1, [1, 20, 109, 200], [99, 100, 9, 10], &[]));
    assert_eq!(get_layer_3_infos(&frame), infos("1.20.109.200", "99.100.9.10"));
}

#[test]
fn ipv4_with_options_finds_tcp_behind_them() {
    let mut rest = vec![1, 1, 1, 1];
    rest.extend_from_slice(&tcp(8080, 22));
    let frame = ethernet(0x0800, &ipv4(6, 6, [10, 1, 2, 3], [10, 3, 2, 1], &rest));
    match network(process_packet_by_type(&frame)) {
        Layer3::Ipv4(header, next) => {
            assert_eq!(header.header_words, 6);
            assert_eq!(header.header_length(), 24);
            assert_eq!(header.total_length, 44);
            assert_eq!(next, NextProto::Tcp(PortPair { source: 8080, destination: 22 }));
        },
        other => panic!("not IPv4: {:?}", other),
    }
}

#[test]
fn ipv4_udp_frame_reports_ports() {
    let frame = ethernet(0x0800, &ipv4(5, 17, [10, 0, 0, 1], [10, 0, 0, 2], &udp(53, 40000)));
    match network(process_packet_by_type(&frame)) {
        Layer3::Ipv4(_, next) => {
            assert_eq!(next, NextProto::Udp(PortPair { source: 53, destination: 40000 }))
        },
        other => panic!("not IPv4: {:?}", other),
    }
    assert_eq!(get_layer_3_infos(&frame), infos("10.0.0.1", "10.0.0.2"));
}

#[test]
fn icmp_is_unsupported_and_addresses_stay() {
    let frame = ethernet(0x0800, &ipv4(5, 1, [192, 0, 2, 1], [198, 51, 100, 7], &[8, 0, 0, 0]));
    match network(process_packet_by_type(&frame)) {
        Layer3::Ipv4(header, next) => {
            assert_eq!(header.next_protocol, 1);
            assert_eq!(next, NextProto::Unsupported { protocol: 1 });
        },
        other => panic!("not IPv4: {:?}", other),
    }
    assert_eq!(get_layer_3_infos(&frame), infos("192.0.2.1", "198.51.100.7"));
}

#[test]
fn truncated_tcp_is_malformed_not_unsupported() {
    let short = &tcp(443, 51000)[..19];
    let frame = ethernet(0x0800, &ipv4(5, 6, [192, 168, 1, 10], [8, 8, 8, 8], short));
    match network(process_packet_by_type(&frame)) {
        Layer3::Ipv4(_, next) => assert_eq!(next, NextProto::Malformed { protocol: 6 }),
        other => panic!("not IPv4: {:?}", other),
    }
    assert_eq!(get_layer_3_infos(&frame), infos("192.168.1.10", "8.8.8.8"));
}

#[test]
fn ipv4_header_with_empty_payload_is_valid() {
    let frame = ethernet(0x0800, &ipv4(5, 17, [1, 2, 3, 4], [5, 6, 7, 8], &[]));
    assert_eq!(frame.len(), 34);
    match network(process_packet_by_type(&frame)) {
        Layer3::Ipv4(_, next) => assert_eq!(next, NextProto::Malformed { protocol: 17 }),
        other => panic!("not IPv4: {:?}", other),
    }
    assert_eq!(get_layer_3_infos(&frame), infos("1.2.3.4", "5.6.7.8"));
}

#[test]
fn truncated_ipv4_gives_sentinel() {
    let whole = ipv4(5, 6, [192, 168, 1, 10], [8, 8, 8, 8], &[]);
    let frame = ethernet(0x0800, &whole[..19]);
    assert_eq!(network(process_packet_by_type(&frame)), Layer3::Malformed { ethertype: 0x0800 });
    assert_eq!(get_layer_3_infos(&frame), infos("N/A", "N/A"));
}

#[test]
fn ipv4_header_length_must_fit() {
    let too_long = ipv4(15, 6, [1, 1, 1, 1], [2, 2, 2, 2], &tcp(1, 2));
    assert_eq!(too_long.len(), 40);
    assert_eq!(decode_ipv4(&too_long), None);
    assert_eq!(Ipv4Handler::handle_packet(&too_long), Layer3::Malformed { ethertype: 0x0800 });
    let too_short = ipv4(4, 6, [1, 1, 1, 1], [2, 2, 2, 2], &tcp(1, 2));
    assert_eq!(decode_ipv4(&too_short), None);
    assert_eq!(get_layer_3_infos(&ethernet(0x0800, &too_short)), infos("N/A", "N/A"));
    let mut rest = vec![0u8; 40];
    rest.extend_from_slice(&udp(7, 9));
    let longest = ipv4(15, 17, [1, 1, 1, 1], [2, 2, 2, 2], &rest);
    let header = decode_ipv4(&longest).unwrap();
    assert_eq!(header.header_length(), 60);
    assert_eq!(
        Ipv4Handler::handle_packet(&longest),
        Layer3::Ipv4(header, NextProto::Udp(PortPair { source: 7, destination: 9 }))
    );
}

#[test]
fn ipv6_frame_is_summarised_in_colon_hex() {
    let frame = ethernet(0x86DD, &ipv6(17, DOC6, LOOPBACK6, &udp(546, 547)));
    assert_eq!(get_layer_3_infos(&frame), infos("2001:db8::abcd", "::1"));
    let frame = ethernet(0x86DD, &ipv6(59, FULL6, DOC6, &[]));
    assert_eq!(frame.len(), 54);
    assert_eq!(get_layer_3_infos(&frame), infos("2001:db8:1:2:3:4:5:6", "2001:db8::abcd"));
}

#[test]
fn ipv6_frame_reports_header_and_ports() {
    let frame = ethernet(0x86DD, &ipv6(6, FULL6, DOC6, &tcp(50000, 443)));
    let expected = FrameReport::Decoded {
        ethernet: EthernetHeader { destination: DEST_MAC, source: SRC_MAC, ethertype: 0x86DD },
        network: Layer3::Ipv6(
            Ipv6Header { source: FULL6, destination: DOC6, next_header: 6, payload_length: 20 },
            NextProto::Tcp(PortPair { source: 50000, destination: 443 }),
        ),
    };
    assert_eq!(process_packet_by_type(&frame), expected);
}

#[test]
fn ipv6_extension_header_is_unsupported() {
    let frame = ethernet(0x86DD, &ipv6(0, DOC6, FULL6, &[17, 0, 0, 0, 0, 0, 0, 0]));
    match network(process_packet_by_type(&frame)) {
        Layer3::Ipv6(_, next) => assert_eq!(next, NextProto::Unsupported { protocol: 0 }),
        other => panic!("not IPv6: {:?}", other),
    }
}

#[test]
fn truncated_ipv6_gives_sentinel() {
    let whole = ipv6(6, DOC6, FULL6, &[]);
    let frame = ethernet(0x86DD, &whole[..39]);
    assert_eq!(network(process_packet_by_type(&frame)), Layer3::Malformed { ethertype: 0x86DD });
    assert_eq!(get_layer_3_infos(&frame), infos("N/A", "N/A"));
    assert_eq!(Ipv6Handler::handle_packet(&whole[..39]), Layer3::Malformed { ethertype: 0x86DD });
}

fn arp_request() -> Vec<u8> {
    let mut p = vec![0, 1, 0x08, 0x00, 6, 4, 0, 1];
    p.extend_from_slice(&SRC_MAC);
    p.extend_from_slice(&[192, 168, 1, 10]);
    p.extend_from_slice(&[0, 0, 0, 0, 0, 0]);
    p.extend_from_slice(&[192, 168, 1, 1]);
    p
}

#[test]
fn arp_frame_reports_its_fields() {
    let frame = ethernet(0x0806, &arp_request());
    let expected = Layer3::Arp(ArpHeader {
        hardware_type: 1,
        operation: 1,
        sender_hw_addr: SRC_MAC,
        sender_proto_addr: [192, 168, 1, 10],
        target_hw_addr: [0, 0, 0, 0, 0, 0],
        target_proto_addr: [192, 168, 1, 1],
        proto_addr_len: 4,
    });
    assert_eq!(network(process_packet_by_type(&frame)), expected);
    assert_eq!(ArpHandler::handle_packet(&arp_request()), expected);
}

#[test]
fn arp_summary_is_sender_then_target() {
    let frame = ethernet(0x0806, &arp_request());
    assert_eq!(get_layer_3_infos(&frame), infos("192.168.1.10", "192.168.1.1"));
    let mut reply = arp_request();
    reply[7] = 2;
    match decode_layer_3(0x0806, &reply) {
        Layer3::Arp(header) => assert_eq!(header.operation, 2),
        other => panic!("not ARP: {:?}", other),
    }
}

#[test]
fn truncated_arp_gives_sentinel() {
    let frame = ethernet(0x0806, &arp_request()[..27]);
    assert_eq!(network(process_packet_by_type(&frame)), Layer3::Malformed { ethertype: 0x0806 });
    assert_eq!(get_layer_3_infos(&frame), infos("N/A", "N/A"));
}

#[test]
fn unknown_ethertype_gives_sentinel() {
    let frame = ethernet(0x1234, &ipv4(5, 6, [192, 168, 1, 10], [8, 8, 8, 8], &tcp(443, 51000)));
    assert_eq!(network(process_packet_by_type(&frame)), Layer3::Unsupported { ethertype: 0x1234 });
    assert_eq!(get_layer_3_infos(&frame), infos("N/A", "N/A"));
    assert_eq!(decode_layer_3(0x8100, &[]), Layer3::Unsupported { ethertype: 0x8100 });
}

#[test]
fn short_frame_is_rejected() {
    let whole = ethernet(0x0800, &[]);
    assert_eq!(process_packet_by_type(&whole[..13]), FrameReport::Rejected { length: 13 });
    assert_eq!(process_packet_by_type(&[]), FrameReport::Rejected { length: 0 });
    assert_eq!(get_layer_3_infos(&whole[..13]), infos("N/A", "N/A"));
    assert_eq!(get_layer_3_infos(&[]), infos("N/A", "N/A"));
}

#[test]
fn bare_ethernet_header_is_decoded() {
    let frame = ethernet(0x0800, &[]);
    assert_eq!(frame.len(), 14);
    let expected = FrameReport::Decoded {
        ethernet: EthernetHeader { destination: DEST_MAC, source: SRC_MAC, ethertype: 0x0800 },
        network: Layer3::Malformed { ethertype: 0x0800 },
    };
    assert_eq!(process_packet_by_type(&frame), expected);
    assert_eq!(expected.summary(), infos("N/A", "N/A"));
}

#[test]
fn summarising_twice_gives_the_same() {
    let frames = [
        ethernet(0x0800, &ipv4(5, 6, [192, 168, 1, 10], [8, 8, 8, 8], &tcp(443, 51000))),
        ethernet(0x86DD, &ipv6(17, DOC6, LOOPBACK6, &udp(546, 547))),
        ethernet(0x0806, &arp_request()),
        ethernet(0x1234, &[1, 2, 3]),
        vec![1, 2, 3],
    ];
    for frame in frames.iter() {
        assert_eq!(get_layer_3_infos(frame), get_layer_3_infos(frame));
        assert_eq!(process_packet_by_type(frame), process_packet_by_type(frame));
        assert_eq!(process_packet_by_type(frame).summary(), get_layer_3_infos(frame));
    }
}

#[test]
fn next_proto_dispatch() {
    assert_eq!(
        handle_next_proto_util(&tcp(443, 51000), 6),
        NextProto::Tcp(PortPair { source: 443, destination: 51000 })
    );
    assert_eq!(
        handle_next_proto_util(&udp(0x0102, 0x0304), 17),
        NextProto::Udp(PortPair { source: 258, destination: 772 })
    );
    assert_eq!(handle_next_proto_util(&udp(1, 2), 6), NextProto::Malformed { protocol: 6 });
    assert_eq!(handle_next_proto_util(&udp(1, 2)[..7], 17), NextProto::Malformed { protocol: 17 });
    assert_eq!(handle_next_proto_util(&[], 6), NextProto::Malformed { protocol: 6 });
    assert_eq!(handle_next_proto_util(&tcp(1, 2), 1), NextProto::Unsupported { protocol: 1 });
    assert_eq!(handle_next_proto_util(&[], 58), NextProto::Unsupported { protocol: 58 });
}

#[test]
fn handlers_share_the_dispatch() {
    let v4 = Ipv4Handler {};
    let v6 = Ipv6Handler {};
    let data = tcp(443, 51000);
    for proto in [0u8, 1, 6, 17, 58, 255] {
        assert_eq!(v4.handle_next_proto(&data, proto), handle_next_proto_util(&data, proto));
        assert_eq!(v6.handle_next_proto(&data, proto), handle_next_proto_util(&data, proto));
    }
}

#[test]
fn not_applicable_marker() {
    assert_eq!(not_applicable_text(), "N/A");
}
