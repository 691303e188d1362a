//! The decode pipeline: a frame's Ethernet header, then the network layer
//! chosen by the ethertype, then the transport ports chosen by the next
//! protocol number. One pass yields a `FrameReport`; a caller prints it or
//! reduces it to a summary.

use crate::headers::{
    arp_fields, arp_view, decode_ipv4, ethernet_fields, ethernet_view, ipv4_view,
    ipv4_well_formed, ipv6_fields, ipv6_view, port_pair, tcp_ports, udp_ports, ArpHeader,
    ArpHeaderView, EthernetHeader, EthernetHeaderView, Ipv4Header, Ipv4HeaderView, Ipv6Header,
    Ipv6HeaderView, PortPair, ETHERNET_HEADER_LEN, IPV6_HEADER_LEN,
};
use vstd::prelude::*;
use vstd::slice::slice_subrange;

pub mod layer_3_infos;

verus! {

/// Ethertype of IPv4.
pub const ETHERTYPE_IPV4: u16 = 0x0800;

/// Ethertype of ARP.
pub const ETHERTYPE_ARP: u16 = 0x0806;

/// Ethertype of IPv6.
pub const ETHERTYPE_IPV6: u16 = 0x86DD;

/// Next-protocol number of TCP.
pub const PROTO_TCP: u8 = 6;

/// Next-protocol number of UDP.
pub const PROTO_UDP: u8 = 17;

/// What was found behind a network-layer header.
#[derive(Clone, Copy, Debug, PartialEq, Eq)]
pub enum NextProto {
    /// A TCP header, with its ports.
    Tcp(PortPair),
    /// A UDP header, with its ports.
    Udp(PortPair),
    /// The protocol is TCP or UDP, but the bytes are too few for its header.
    Malformed { protocol: u8 },
    /// The protocol has no decoder here.
    Unsupported { protocol: u8 },
}

/// The transport-layer outcome for protocol number `proto` over the bytes
/// `data`.
pub open spec fn next_proto_of(data: Seq<u8>, proto: u8) -> NextProto {
    if proto == 6 {
        if data.len() >= 20 {
            NextProto::Tcp(port_pair(data))
        } else {
            NextProto::Malformed { protocol: proto }
        }
    } else if proto == 17 {
        if data.len() >= 8 {
            NextProto::Udp(port_pair(data))
        } else {
            NextProto::Malformed { protocol: proto }
        }
    } else {
        NextProto::Unsupported { protocol: proto }
    }
}

/// Resolves the transport layer: TCP for protocol 6, UDP for protocol 17, and
/// for every other number the outcome that says so. Too few bytes for the
/// chosen header is reported as malformed, never as unsupported.
pub fn handle_next_proto_util(data: &[u8], proto: u8) -> (next: NextProto)
    ensures
        next == next_proto_of(data@, proto),
{
    if proto == PROTO_TCP {
        match tcp_ports(data) {
            Some(ports) => NextProto::Tcp(ports),
            None => NextProto::Malformed { protocol: proto },
        }
    } else if proto == PROTO_UDP {
        match udp_ports(data) {
            Some(ports) => NextProto::Udp(ports),
            None => NextProto::Malformed { protocol: proto },
        }
    } else {
        NextProto::Unsupported { protocol: proto }
    }
}

/// A network layer that hands its payload on to the transport layer.
pub trait HandleNextProto {
    fn handle_next_proto(&self, data: &[u8], proto: u8) -> (next: NextProto)
        ensures
            next == next_proto_of(data@, proto),
    ;
}

/// The IPv4 decode path.
pub struct Ipv4Handler {}

/// The IPv6 decode path.
pub struct Ipv6Handler {}

/// The ARP decode path.
pub struct ArpHandler {}

impl HandleNextProto for Ipv4Handler {
    fn handle_next_proto(&self, data: &[u8], proto: u8) -> (next: NextProto) {
        handle_next_proto_util(data, proto)
    }
}

impl HandleNextProto for Ipv6Handler {
    fn handle_next_proto(&self, data: &[u8], proto: u8) -> (next: NextProto) {
        handle_next_proto_util(data, proto)
    }
}

/// What was found behind an Ethernet header.
#[derive(Clone, Copy, Debug, PartialEq, Eq)]
pub enum Layer3 {
    Ipv4(Ipv4Header, NextProto),
    Ipv6(Ipv6Header, NextProto),
    Arp(ArpHeader),
    /// The ethertype names IPv4, IPv6 or ARP, but the bytes do not hold a
    /// well-formed header of that kind.
    Malformed { ethertype: u16 },
    /// The ethertype has no decoder here.
    Unsupported { ethertype: u16 },
}

/// A network-layer outcome as a mathematical value.
pub enum Layer3View {
    Ipv4(Ipv4HeaderView, NextProto),
    Ipv6(Ipv6HeaderView, NextProto),
    Arp(ArpHeaderView),
    Malformed { ethertype: u16 },
    Unsupported { ethertype: u16 },
}

impl View for Layer3 {
    type V = Layer3View;

    open spec fn view(&self) -> Layer3View {
        match *self {
            Layer3::Ipv4(header, next) => Layer3View::Ipv4(header@, next),
            Layer3::Ipv6(header, next) => Layer3View::Ipv6(header@, next),
            Layer3::Arp(header) => Layer3View::Arp(header@),
            Layer3::Malformed { ethertype } => Layer3View::Malformed { ethertype },
            Layer3::Unsupported { ethertype } => Layer3View::Unsupported { ethertype },
        }
    }
}

/// The IPv4 outcome for the bytes `data` behind an Ethernet header: the header
/// and, from where the header ends, the transport layer.
pub open spec fn ipv4_layer_of(data: Seq<u8>) -> Layer3View {
    if ipv4_well_formed(data) {
        let header = ipv4_view(data);
        Layer3View::Ipv4(
            header,
            next_proto_of(
                data.subrange(header.header_length(), data.len() as int),
                header.next_protocol,
            ),
        )
    } else {
        Layer3View::Malformed { ethertype: 0x0800 }
    }
}

/// The IPv6 outcome for the bytes `data` behind an Ethernet header: the fixed
/// header and, from byte 40 on, the transport layer.
pub open spec fn ipv6_layer_of(data: Seq<u8>) -> Layer3View {
    if data.len() >= 40 {
        let header = ipv6_view(data);
        Layer3View::Ipv6(
            header,
            next_proto_of(data.subrange(40, data.len() as int), header.next_header),
        )
    } else {
        Layer3View::Malformed { ethertype: 0x86DD }
    }
}

/// The ARP outcome for the bytes `data` behind an Ethernet header.
pub open spec fn arp_layer_of(data: Seq<u8>) -> Layer3View {
    if data.len() >= 28 {
        Layer3View::Arp(arp_view(data))
    } else {
        Layer3View::Malformed { ethertype: 0x0806 }
    }
}

/// The network-layer outcome for an Ethernet payload and its ethertype.
pub open spec fn layer_3_of(ethertype: u16, payload: Seq<u8>) -> Layer3View {
    if ethertype == 0x86DD {
        ipv6_layer_of(payload)
    } else if ethertype == 0x0800 {
        ipv4_layer_of(payload)
    } else if ethertype == 0x0806 {
        arp_layer_of(payload)
    } else {
        Layer3View::Unsupported { ethertype }
    }
}

impl Ipv4Handler {
    /// Decodes an IPv4 packet and the transport header in its payload.
    pub fn handle_packet(data: &[u8]) -> (layer: Layer3)
        ensures
            layer@ == ipv4_layer_of(data@),
    {
        match decode_ipv4(data) {
            Some(header) => {
                let payload = slice_subrange(data, header.header_length(), data.len());
                let next = (Ipv4Handler {}).handle_next_proto(payload, header.next_protocol);
                Layer3::Ipv4(header, next)
            },
            None => Layer3::Malformed { ethertype: ETHERTYPE_IPV4 },
        }
    }
}

impl Ipv6Handler {
    /// Decodes an IPv6 packet and the transport header in its payload.
    pub fn handle_packet(data: &[u8]) -> (layer: Layer3)
        ensures
            layer@ == ipv6_layer_of(data@),
    {
        match ipv6_fields(data) {
            Some(header) => {
                let payload = slice_subrange(data, IPV6_HEADER_LEN, data.len());
                let next = (Ipv6Handler {}).handle_next_proto(payload, header.next_header);
                Layer3::Ipv6(header, next)
            },
            None => Layer3::Malformed { ethertype: ETHERTYPE_IPV6 },
        }
    }
}

impl ArpHandler {
    /// Decodes an ARP packet.
    pub fn handle_packet(data: &[u8]) -> (layer: Layer3)
        ensures
            layer@ == arp_layer_of(data@),
    {
        match arp_fields(data) {
            Some(header) => Layer3::Arp(header),
            None => Layer3::Malformed { ethertype: ETHERTYPE_ARP },
        }
    }
}

/// Chooses the network-layer decoder by ethertype and runs it on the Ethernet
/// payload. Every input has an outcome: an ethertype without a decoder and a
/// header that does not parse each get a variant of their own.
pub fn decode_layer_3(ethertype: u16, payload: &[u8]) -> (layer: Layer3)
    ensures
        layer@ == layer_3_of(ethertype, payload@),
{
    if ethertype == ETHERTYPE_IPV6 {
        Ipv6Handler::handle_packet(payload)
    } else if ethertype == ETHERTYPE_IPV4 {
        Ipv4Handler::handle_packet(payload)
    } else if ethertype == ETHERTYPE_ARP {
        ArpHandler::handle_packet(payload)
    } else {
        Layer3::Unsupported { ethertype }
    }
}

/// The decode of one captured frame.
#[derive(Clone, Copy, Debug, PartialEq, Eq)]
pub enum FrameReport {
    /// The frame is shorter than an Ethernet header; nothing was decoded.
    Rejected { length: usize },
    /// The Ethernet header and what was found behind it.
    Decoded { ethernet: EthernetHeader, network: Layer3 },
}

/// A frame report as a mathematical value.
pub enum FrameReportView {
    Rejected { length: usize },
    Decoded { ethernet: EthernetHeaderView, network: Layer3View },
}

impl View for FrameReport {
    type V = FrameReportView;

    open spec fn view(&self) -> FrameReportView {
        match *self {
            FrameReport::Rejected { length } => FrameReportView::Rejected { length },
            FrameReport::Decoded { ethernet, network } => FrameReportView::Decoded {
                ethernet: ethernet@,
                network: network@,
            },
        }
    }
}

/// The report for the frame `frame`.
pub open spec fn report_of(frame: Seq<u8>) -> FrameReportView {
    if frame.len() >= 14 {
        let ethernet = ethernet_view(frame);
        FrameReportView::Decoded {
            ethernet,
            network: layer_3_of(ethernet.ethertype, frame.subrange(14, frame.len() as int)),
        }
    } else {
        FrameReportView::Rejected { length: frame.len() as usize }
    }
}

/// Decodes one frame in a single pass. A frame shorter than 14 bytes is
/// rejected and nothing behind its length is read; every other frame yields its
/// Ethernet header and the network-layer outcome.
pub fn process_packet_by_type(frame: &[u8]) -> (report: FrameReport)
    ensures
        report@ == report_of(frame@),
{
    match ethernet_fields(frame) {
        Some(ethernet) => {
            let payload = slice_subrange(frame, ETHERNET_HEADER_LEN, frame.len());
            let network = decode_layer_3(ethernet.ethertype, payload);
            FrameReport::Decoded { ethernet, network }
        },
        None => FrameReport::Rejected { length: frame.len() },
    }
}

} // verus!
