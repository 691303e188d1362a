//! The compact summary of a decoded frame: the network-layer source and
//! destination address as text, and what holds of it for each kind of frame.

use crate::address::{
    colon_hex, dotted_decimal, ipv4_text, ipv6_text, not_applicable, not_applicable_text,
};
use crate::headers::{ethernet_view, ipv4_view, ipv4_well_formed};
use crate::info_packet::{
    process_packet_by_type, report_of, FrameReport, FrameReportView, Layer3, Layer3View, NextProto,
};
use vstd::prelude::*;

verus! {

/// Source and destination network address of a frame, as text. Both fields
/// always hold a value: where no address was decoded they hold the marker
/// `N/A`.
#[derive(Clone, Debug, PartialEq, Eq)]
pub struct Layer3Infos {
    pub ip_source: String,
    pub ip_destination: String,
}

/// A summary as a mathematical value: each address as a sequence of characters.
pub struct Layer3InfosView {
    pub ip_source: Seq<char>,
    pub ip_destination: Seq<char>,
}

impl View for Layer3Infos {
    type V = Layer3InfosView;

    open spec fn view(&self) -> Layer3InfosView {
        Layer3InfosView { ip_source: self.ip_source@, ip_destination: self.ip_destination@ }
    }
}

/// The summary that stands for "no address available".
pub open spec fn sentinel() -> Layer3InfosView {
    Layer3InfosView { ip_source: not_applicable(), ip_destination: not_applicable() }
}

/// The summary of a network-layer outcome. IPv4 addresses are rendered in
/// dotted decimal, IPv6 addresses in colon-hex; for ARP the sender's protocol
/// address is the source and the target's the destination. The transport
/// layer plays no part.
pub open spec fn summary_of_layer(layer: Layer3View) -> Layer3InfosView {
    match layer {
        Layer3View::Ipv4(header, next) => Layer3InfosView {
            ip_source: dotted_decimal(header.source),
            ip_destination: dotted_decimal(header.destination),
        },
        Layer3View::Ipv6(header, next) => Layer3InfosView {
            ip_source: colon_hex(header.source),
            ip_destination: colon_hex(header.destination),
        },
        Layer3View::Arp(header) => Layer3InfosView {
            ip_source: dotted_decimal(header.sender_proto_addr),
            ip_destination: dotted_decimal(header.target_proto_addr),
        },
        Layer3View::Malformed { ethertype } => sentinel(),
        Layer3View::Unsupported { ethertype } => sentinel(),
    }
}

/// The summary of a frame report: that of its network layer, or the sentinel
/// for a rejected frame.
pub open spec fn summary_of_report(report: FrameReportView) -> Layer3InfosView {
    match report {
        FrameReportView::Rejected { length } => sentinel(),
        FrameReportView::Decoded { ethernet, network } => summary_of_layer(network),
    }
}

/// The summary of the frame `frame`.
pub open spec fn summary_of(frame: Seq<u8>) -> Layer3InfosView {
    summary_of_report(report_of(frame))
}

/// Whether `frame` is an Ethernet frame that carries a well-formed IPv4 packet.
pub open spec fn is_ethernet_ipv4(frame: Seq<u8>) -> bool {
    &&& frame.len() >= 14
    &&& ethernet_view(frame).ethertype == 0x0800
    &&& ipv4_well_formed(frame.subrange(14, frame.len() as int))
}

/// Whether `frame` is an Ethernet frame that carries a well-formed IPv4 packet
/// with a whole TCP header behind the IPv4 header.
pub open spec fn is_ethernet_ipv4_tcp(frame: Seq<u8>) -> bool {
    &&& is_ethernet_ipv4(frame)
    &&& ipv4_view(frame.subrange(14, frame.len() as int)).next_protocol == 6
    &&& frame.len() - 14 - ipv4_view(frame.subrange(14, frame.len() as int)).header_length()
        >= 20
}

/// Whether `frame` is an Ethernet frame that carries a whole IPv6 header.
pub open spec fn is_ethernet_ipv6(frame: Seq<u8>) -> bool {
    &&& frame.len() >= 54
    &&& ethernet_view(frame).ethertype == 0x86DD
}

impl Layer3 {
    /// Renders the two addresses of this outcome.
    pub fn summary(&self) -> (infos: Layer3Infos)
        ensures
            infos@ == summary_of_layer(self@),
    {
        match self {
            Layer3::Ipv4(header, _) => Layer3Infos {
                ip_source: ipv4_text(&header.source),
                ip_destination: ipv4_text(&header.destination),
            },
            Layer3::Ipv6(header, _) => Layer3Infos {
                ip_source: ipv6_text(&header.source),
                ip_destination: ipv6_text(&header.destination),
            },
            Layer3::Arp(header) => Layer3Infos {
                ip_source: ipv4_text(&header.sender_proto_addr),
                ip_destination: ipv4_text(&header.target_proto_addr),
            },
            Layer3::Malformed { ethertype: _ } => Layer3Infos {
                ip_source: not_applicable_text(),
                ip_destination: not_applicable_text(),
            },
            Layer3::Unsupported { ethertype: _ } => Layer3Infos {
                ip_source: not_applicable_text(),
                ip_destination: not_applicable_text(),
            },
        }
    }
}

impl FrameReport {
    /// Reduces the report to the two addresses of its network layer.
    pub fn summary(&self) -> (infos: Layer3Infos)
        ensures
            infos@ == summary_of_report(self@),
    {
        match self {
            FrameReport::Rejected { length: _ } => Layer3Infos {
                ip_source: not_applicable_text(),
                ip_destination: not_applicable_text(),
            },
            FrameReport::Decoded { ethernet: _, network } => network.summary(),
        }
    }
}

/// Decodes one frame and returns the source and destination network address
/// found in it, or the sentinel where the frame holds none.
pub fn get_layer_3_infos(frame: &[u8]) -> (infos: Layer3Infos)
    ensures
        infos@ == summary_of(frame@),
{
    process_packet_by_type(frame).summary()
}

/// The addresses of a well-formed IPv4 packet are bytes 26..30 and 30..34 of
/// its frame.
pub proof fn lemma_ipv4_address_bytes(frame: Seq<u8>)
    requires
        is_ethernet_ipv4(frame),
    ensures
        ipv4_view(frame.subrange(14, frame.len() as int)).source == frame.subrange(26, 30),
        ipv4_view(frame.subrange(14, frame.len() as int)).destination == frame.subrange(30, 34),
{
    let data = frame.subrange(14, frame.len() as int);
    assert(data.subrange(12, 16) =~= frame.subrange(26, 30));
    assert(data.subrange(16, 20) =~= frame.subrange(30, 34));
}

/// Every well-formed IPv4 frame, whatever it carries, is summarised by the
/// dotted-decimal form of its two address fields.
pub proof fn ipv4_summary_is_addresses(frame: Seq<u8>)
    requires
        is_ethernet_ipv4(frame),
    ensures
        summary_of(frame) == (Layer3InfosView {
            ip_source: dotted_decimal(frame.subrange(26, 30)),
            ip_destination: dotted_decimal(frame.subrange(30, 34)),
        }),
{
    lemma_ipv4_address_bytes(frame);
}

/// Every well-formed Ethernet, IPv4 and TCP frame is summarised by the
/// dotted-decimal form of its two IPv4 address fields, and its report holds the
/// TCP ports.
pub proof fn ipv4_tcp_summary_is_addresses(frame: Seq<u8>)
    requires
        is_ethernet_ipv4_tcp(frame),
    ensures
        summary_of(frame) == (Layer3InfosView {
            ip_source: dotted_decimal(frame.subrange(26, 30)),
            ip_destination: dotted_decimal(frame.subrange(30, 34)),
        }),
        report_of(frame) matches FrameReportView::Decoded { ethernet, network }
            && network matches Layer3View::Ipv4(header, next) && next is Tcp,
{
    ipv4_summary_is_addresses(frame);
}

/// Two well-formed Ethernet, IPv4 and TCP frames with the same IPv4 address
/// fields have the same summary: no TCP field, and no other byte of the frame,
/// has a part in it.
pub proof fn ipv4_tcp_summary_ignores_tcp_fields(a: Seq<u8>, b: Seq<u8>)
    requires
        is_ethernet_ipv4_tcp(a),
        is_ethernet_ipv4_tcp(b),
        a.subrange(26, 34) == b.subrange(26, 34),
    ensures
        summary_of(a) == summary_of(b),
{
    ipv4_tcp_summary_is_addresses(a);
    ipv4_tcp_summary_is_addresses(b);
    assert(a.subrange(26, 30) =~= a.subrange(26, 34).subrange(0, 4));
    assert(b.subrange(26, 30) =~= b.subrange(26, 34).subrange(0, 4));
    assert(a.subrange(30, 34) =~= a.subrange(26, 34).subrange(4, 8));
    assert(b.subrange(30, 34) =~= b.subrange(26, 34).subrange(4, 8));
}

/// Every Ethernet frame with a whole IPv6 header is summarised by the
/// colon-hex form of its two 16-byte address fields.
pub proof fn ipv6_summary_is_addresses(frame: Seq<u8>)
    requires
        is_ethernet_ipv6(frame),
    ensures
        summary_of(frame) == (Layer3InfosView {
            ip_source: colon_hex(frame.subrange(22, 38)),
            ip_destination: colon_hex(frame.subrange(38, 54)),
        }),
{
    let data = frame.subrange(14, frame.len() as int);
    assert(data.subrange(8, 24) =~= frame.subrange(22, 38));
    assert(data.subrange(24, 40) =~= frame.subrange(38, 54));
}

/// A frame shorter than an Ethernet header is rejected, with nothing decoded,
/// and its summary is the sentinel.
pub proof fn short_frame_is_rejected(frame: Seq<u8>)
    requires
        frame.len() < 14,
    ensures
        report_of(frame) == (FrameReportView::Rejected { length: frame.len() as usize }),
        summary_of(frame) == sentinel(),
{
}

/// A frame whose ethertype is none of IPv4, IPv6 and ARP is reported as
/// unsupported, and its summary is the sentinel in both fields.
pub proof fn unknown_ethertype_gives_sentinel(frame: Seq<u8>)
    requires
        frame.len() >= 14,
        ethernet_view(frame).ethertype != 0x0800,
        ethernet_view(frame).ethertype != 0x86DD,
        ethernet_view(frame).ethertype != 0x0806,
    ensures
        report_of(frame) == (FrameReportView::Decoded {
            ethernet: ethernet_view(frame),
            network: Layer3View::Unsupported { ethertype: ethernet_view(frame).ethertype },
        }),
        summary_of(frame).ip_source == not_applicable(),
        summary_of(frame).ip_destination == not_applicable(),
{
}

/// A well-formed IPv4 frame whose next protocol is neither TCP nor UDP has its
/// transport layer reported as unsupported, never as malformed, and is still
/// summarised by its two address fields.
pub proof fn unsupported_transport_keeps_addresses(frame: Seq<u8>)
    requires
        is_ethernet_ipv4(frame),
        ipv4_view(frame.subrange(14, frame.len() as int)).next_protocol != 6,
        ipv4_view(frame.subrange(14, frame.len() as int)).next_protocol != 17,
    ensures
        report_of(frame) == (FrameReportView::Decoded {
            ethernet: ethernet_view(frame),
            network: Layer3View::Ipv4(
                ipv4_view(frame.subrange(14, frame.len() as int)),
                NextProto::Unsupported {
                    protocol: ipv4_view(frame.subrange(14, frame.len() as int)).next_protocol,
                },
            ),
        }),
        summary_of(frame) == (Layer3InfosView {
            ip_source: dotted_decimal(frame.subrange(26, 30)),
            ip_destination: dotted_decimal(frame.subrange(30, 34)),
        }),
{
    ipv4_summary_is_addresses(frame);
}

/// The summary of a network layer does not depend on what was found behind
/// it: a transport layer that is malformed or unsupported changes nothing.
pub proof fn summary_ignores_transport(layer: Layer3View, other: NextProto)
    ensures
        layer matches Layer3View::Ipv4(header, next) ==> summary_of_layer(layer)
            == summary_of_layer(Layer3View::Ipv4(header, other)),
        layer matches Layer3View::Ipv6(header, next) ==> summary_of_layer(layer)
            == summary_of_layer(Layer3View::Ipv6(header, other)),
{
}

/// Summarising is repeatable: any two summaries of the same bytes are equal.
pub proof fn summary_is_repeatable(
    frame: Seq<u8>,
    again: Seq<u8>,
    first: Layer3InfosView,
    second: Layer3InfosView,
)
    requires
        frame == again,
        first == summary_of(frame),
        second == summary_of(again),
    ensures
        first == second,
{
}

} // verus!
