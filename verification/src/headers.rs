//! Header views: the fixed fields of each protocol header, read from the front
//! of a byte buffer. Numbers are in network byte order; addresses stay as
//! fixed-width byte arrays.

use vstd::prelude::*;

verus! {

/// Length of an Ethernet header.
pub const ETHERNET_HEADER_LEN: usize = 14;

/// Length of an IPv4 header without options.
pub const IPV4_MIN_HEADER_LEN: usize = 20;

/// Length of the fixed IPv6 header.
pub const IPV6_HEADER_LEN: usize = 40;

/// The 16-bit number whose big-endian encoding is `hi`, `lo`.
pub open spec fn be16(hi: u8, lo: u8) -> u16 {
    (hi * 256 + lo) as u16
}

/// The fixed fields of an Ethernet header.
#[derive(Clone, Copy, Debug, PartialEq, Eq)]
pub struct EthernetHeader {
    pub destination: [u8; 6],
    pub source: [u8; 6],
    pub ethertype: u16,
}

/// An Ethernet header as a mathematical value: addresses as byte sequences.
pub struct EthernetHeaderView {
    pub destination: Seq<u8>,
    pub source: Seq<u8>,
    pub ethertype: u16,
}

impl View for EthernetHeader {
    type V = EthernetHeaderView;

    open spec fn view(&self) -> EthernetHeaderView {
        EthernetHeaderView {
            destination: self.destination@,
            source: self.source@,
            ethertype: self.ethertype,
        }
    }
}

/// The Ethernet header at the front of `frame`; meaningful when `frame` holds
/// at least 14 bytes.
pub open spec fn ethernet_view(frame: Seq<u8>) -> EthernetHeaderView {
    EthernetHeaderView {
        destination: frame.subrange(0, 6),
        source: frame.subrange(6, 12),
        ethertype: be16(frame[12], frame[13]),
    }
}

/// The fixed fields of an IPv4 header. `header_words` is the 4-bit header
/// length field as it stands on the wire, in 32-bit words.
#[derive(Clone, Copy, Debug, PartialEq, Eq)]
pub struct Ipv4Header {
    pub source: [u8; 4],
    pub destination: [u8; 4],
    pub next_protocol: u8,
    pub total_length: u16,
    pub header_words: u8,
}

/// An IPv4 header as a mathematical value: addresses as byte sequences.
pub struct Ipv4HeaderView {
    pub source: Seq<u8>,
    pub destination: Seq<u8>,
    pub next_protocol: u8,
    pub total_length: u16,
    pub header_words: u8,
}

impl View for Ipv4Header {
    type V = Ipv4HeaderView;

    open spec fn view(&self) -> Ipv4HeaderView {
        Ipv4HeaderView {
            source: self.source@,
            destination: self.destination@,
            next_protocol: self.next_protocol,
            total_length: self.total_length,
            header_words: self.header_words,
        }
    }
}

impl Ipv4HeaderView {
    /// Header length in bytes: where the payload begins.
    pub open spec fn header_length(self) -> int {
        self.header_words * 4
    }
}

impl Ipv4Header {
    /// Header length in bytes: where the payload begins.
    pub fn header_length(&self) -> (len: usize)
        ensures
            len == self@.header_length(),
    {
        let words: usize = self.header_words as usize;
        words * 4
    }
}

/// The fields of the IPv4 header at the front of `data`; meaningful when `data`
/// holds at least 20 bytes.
pub open spec fn ipv4_view(data: Seq<u8>) -> Ipv4HeaderView {
    Ipv4HeaderView {
        source: data.subrange(12, 16),
        destination: data.subrange(16, 20),
        next_protocol: data[9],
        total_length: be16(data[2], data[3]),
        header_words: data[0] % 16,
    }
}

/// Whether `data` starts with an IPv4 header that is consistent with the
/// buffer: the fixed 20 bytes are there, and the declared header length covers
/// them and ends inside the buffer.
pub open spec fn ipv4_well_formed(data: Seq<u8>) -> bool {
    &&& data.len() >= 20
    &&& 20 <= ipv4_view(data).header_length() <= data.len()
}

/// The fixed fields of an IPv6 header.
#[derive(Clone, Copy, Debug, PartialEq, Eq)]
pub struct Ipv6Header {
    pub source: [u8; 16],
    pub destination: [u8; 16],
    pub next_header: u8,
    pub payload_length: u16,
}

/// An IPv6 header as a mathematical value: addresses as byte sequences.
pub struct Ipv6HeaderView {
    pub source: Seq<u8>,
    pub destination: Seq<u8>,
    pub next_header: u8,
    pub payload_length: u16,
}

impl View for Ipv6Header {
    type V = Ipv6HeaderView;

    open spec fn view(&self) -> Ipv6HeaderView {
        Ipv6HeaderView {
            source: self.source@,
            destination: self.destination@,
            next_header: self.next_header,
            payload_length: self.payload_length,
        }
    }
}

/// The fields of the IPv6 header at the front of `data`; meaningful when `data`
/// holds at least 40 bytes.
pub open spec fn ipv6_view(data: Seq<u8>) -> Ipv6HeaderView {
    Ipv6HeaderView {
        source: data.subrange(8, 24),
        destination: data.subrange(24, 40),
        next_header: data[6],
        payload_length: be16(data[4], data[5]),
    }
}

/// The fields of an ARP packet for IPv4 over Ethernet.
#[derive(Clone, Copy, Debug, PartialEq, Eq)]
pub struct ArpHeader {
    pub hardware_type: u16,
    pub operation: u16,
    pub sender_hw_addr: [u8; 6],
    pub sender_proto_addr: [u8; 4],
    pub target_hw_addr: [u8; 6],
    pub target_proto_addr: [u8; 4],
    pub proto_addr_len: u8,
}

/// An ARP packet as a mathematical value: addresses as byte sequences.
pub struct ArpHeaderView {
    pub hardware_type: u16,
    pub operation: u16,
    pub sender_hw_addr: Seq<u8>,
    pub sender_proto_addr: Seq<u8>,
    pub target_hw_addr: Seq<u8>,
    pub target_proto_addr: Seq<u8>,
    pub proto_addr_len: u8,
}

impl View for ArpHeader {
    type V = ArpHeaderView;

    open spec fn view(&self) -> ArpHeaderView {
        ArpHeaderView {
            hardware_type: self.hardware_type,
            operation: self.operation,
            sender_hw_addr: self.sender_hw_addr@,
            sender_proto_addr: self.sender_proto_addr@,
            target_hw_addr: self.target_hw_addr@,
            target_proto_addr: self.target_proto_addr@,
            proto_addr_len: self.proto_addr_len,
        }
    }
}

/// The fields of the ARP packet at the front of `data`; meaningful when `data`
/// holds at least 28 bytes.
pub open spec fn arp_view(data: Seq<u8>) -> ArpHeaderView {
    ArpHeaderView {
        hardware_type: be16(data[0], data[1]),
        operation: be16(data[6], data[7]),
        sender_hw_addr: data.subrange(8, 14),
        sender_proto_addr: data.subrange(14, 18),
        target_hw_addr: data.subrange(18, 24),
        target_proto_addr: data.subrange(24, 28),
        proto_addr_len: data[5],
    }
}

/// Source and destination port of a TCP or UDP header.
#[derive(Clone, Copy, Debug, PartialEq, Eq)]
pub struct PortPair {
    pub source: u16,
    pub destination: u16,
}

/// The two ports at the front of a TCP or UDP header; meaningful when `data`
/// holds at least 4 bytes.
pub open spec fn port_pair(data: Seq<u8>) -> PortPair {
    PortPair { source: be16(data[0], data[1]), destination: be16(data[2], data[3]) }
}

/// Trusted: `pnet::packet::ethernet::EthernetPacket::new` and its getters
/// `get_destination`, `get_source`, `get_ethertype`. The view exists exactly
/// for buffers of 14 bytes or more; the two addresses are bytes 0..6 and 6..12,
/// the ethertype is the big-endian number in bytes 12 and 13.
#[verifier::external_body]
pub(crate) fn ethernet_fields(frame: &[u8]) -> (header: Option<EthernetHeader>)
    ensures
        header is Some <==> frame@.len() >= 14,
        header matches Some(h) ==> h@ == ethernet_view(frame@),
{
    match pnet::packet::ethernet::EthernetPacket::new(frame) {
        Some(p) => Some(EthernetHeader {
            destination: p.get_destination().octets(),
            source: p.get_source().octets(),
            ethertype: p.get_ethertype().0,
        }),
        None => None,
    }
}

/// Trusted: `pnet::packet::ipv4::Ipv4Packet::new` and its getters `get_source`,
/// `get_destination`, `get_next_level_protocol`, `get_total_length`,
/// `get_header_length`. The view exists exactly for buffers of 20 bytes or
/// more, whatever the header length field says; the fields are read at their
/// fixed offsets, the header length being the low four bits of byte 0.
#[verifier::external_body]
pub(crate) fn ipv4_fields(data: &[u8]) -> (header: Option<Ipv4Header>)
    ensures
        header is Some <==> data@.len() >= 20,
        header matches Some(h) ==> h@ == ipv4_view(data@),
{
    match pnet::packet::ipv4::Ipv4Packet::new(data) {
        Some(p) => Some(Ipv4Header {
            source: p.get_source().octets(),
            destination: p.get_destination().octets(),
            next_protocol: p.get_next_level_protocol().0,
            total_length: p.get_total_length(),
            header_words: p.get_header_length(),
        }),
        None => None,
    }
}

/// Trusted: `pnet::packet::ipv6::Ipv6Packet::new` and its getters `get_source`,
/// `get_destination`, `get_next_header`, `get_payload_length`. The view exists
/// exactly for buffers of 40 bytes or more; the fields are read at their fixed
/// offsets.
#[verifier::external_body]
pub(crate) fn ipv6_fields(data: &[u8]) -> (header: Option<Ipv6Header>)
    ensures
        header is Some <==> data@.len() >= 40,
        header matches Some(h) ==> h@ == ipv6_view(data@),
{
    match pnet::packet::ipv6::Ipv6Packet::new(data) {
        Some(p) => Some(Ipv6Header {
            source: p.get_source().octets(),
            destination: p.get_destination().octets(),
            next_header: p.get_next_header().0,
            payload_length: p.get_payload_length(),
        }),
        None => None,
    }
}

/// Trusted: `pnet::packet::arp::ArpPacket::new` and its getters. The view
/// exists exactly for buffers of 28 bytes or more; the fields are read at the
/// fixed offsets of ARP for IPv4 over Ethernet, whatever the two address
/// length bytes say.
#[verifier::external_body]
pub(crate) fn arp_fields(data: &[u8]) -> (header: Option<ArpHeader>)
    ensures
        header is Some <==> data@.len() >= 28,
        header matches Some(h) ==> h@ == arp_view(data@),
{
    match pnet::packet::arp::ArpPacket::new(data) {
        Some(p) => Some(ArpHeader {
            hardware_type: p.get_hardware_type().0,
            operation: p.get_operation().0,
            sender_hw_addr: p.get_sender_hw_addr().octets(),
            sender_proto_addr: p.get_sender_proto_addr().octets(),
            target_hw_addr: p.get_target_hw_addr().octets(),
            target_proto_addr: p.get_target_proto_addr().octets(),
            proto_addr_len: p.get_proto_addr_len(),
        }),
        None => None,
    }
}

/// Trusted: `pnet::packet::tcp::TcpPacket::new` with `get_source` and
/// `get_destination`. The view exists exactly for buffers of 20 bytes or more;
/// the ports are the big-endian numbers in bytes 0..2 and 2..4.
#[verifier::external_body]
pub(crate) fn tcp_ports(data: &[u8]) -> (ports: Option<PortPair>)
    ensures
        ports is Some <==> data@.len() >= 20,
        ports matches Some(p) ==> p == port_pair(data@),
{
    match pnet::packet::tcp::TcpPacket::new(data) {
        Some(p) => Some(PortPair { source: p.get_source(), destination: p.get_destination() }),
        None => None,
    }
}

/// Trusted: `pnet::packet::udp::UdpPacket::new` with `get_source` and
/// `get_destination`. The view exists exactly for buffers of 8 bytes or more;
/// the ports are the big-endian numbers in bytes 0..2 and 2..4.
#[verifier::external_body]
pub(crate) fn udp_ports(data: &[u8]) -> (ports: Option<PortPair>)
    ensures
        ports is Some <==> data@.len() >= 8,
        ports matches Some(p) ==> p == port_pair(data@),
{
    match pnet::packet::udp::UdpPacket::new(data) {
        Some(p) => Some(PortPair { source: p.get_source(), destination: p.get_destination() }),
        None => None,
    }
}

/// Decodes the IPv4 header at the front of `data`. Succeeds exactly when the
/// header is well formed for this buffer.
pub fn decode_ipv4(data: &[u8]) -> (header: Option<Ipv4Header>)
    ensures
        header is Some <==> ipv4_well_formed(data@),
        header matches Some(h) ==> h@ == ipv4_view(data@),
{
    match ipv4_fields(data) {
        Some(h) => {
            let len: usize = h.header_length();
            if IPV4_MIN_HEADER_LEN <= len && len <= data.len() {
                Some(h)
            } else {
                None
            }
        },
        None => None,
    }
}

} // verus!
