//! The byte layout of the link, internet and transport headers, and the
//! calls into `pnet` that read them.
//!
//! The spec functions of this module say where each field lies in a packet;
//! the functions marked `external_body` hand the packet to `pnet` and are
//! believed to return what those spec functions say.

use crate::bytes::{be16, be32};
use pnet::packet::ethernet::EthernetPacket;
use pnet::packet::ipv4::Ipv4Packet;
use pnet::packet::tcp::TcpPacket;
use pnet::packet::udp::UdpPacket;
use pnet::packet::Packet;
use pnet::util::MacAddr;
use vstd::prelude::*;

verus! {

/// Length of the fixed Ethernet header.
pub const ETHERNET_HEADER_LEN: usize = 14;

/// Length of an IPv4 header without options.
pub const IPV4_HEADER_LEN: usize = 20;

/// Length of a TCP header without options.
pub const TCP_HEADER_LEN: usize = 20;

/// Length of the UDP header.
pub const UDP_HEADER_LEN: usize = 8;

/// The fixed fields of an Ethernet header as they stand in the frame.
#[derive(Clone, Copy, Debug)]
pub struct EthernetFields {
    pub destination: (u8, u8, u8, u8, u8, u8),
    pub source: (u8, u8, u8, u8, u8, u8),
    pub ethertype: u16,
}

/// Six bytes of `s` from `at` on.
pub open spec fn six_at(s: Seq<u8>, at: int) -> (u8, u8, u8, u8, u8, u8) {
    (s[at], s[at + 1], s[at + 2], s[at + 3], s[at + 4], s[at + 5])
}

/// Four bytes of `s` from `at` on.
pub open spec fn four_at(s: Seq<u8>, at: int) -> (u8, u8, u8, u8) {
    (s[at], s[at + 1], s[at + 2], s[at + 3])
}

/// The Ethernet header fields of a frame of at least fourteen bytes.
pub open spec fn ethernet_fields_of(frame: Seq<u8>) -> EthernetFields {
    EthernetFields {
        destination: six_at(frame, 0),
        source: six_at(frame, 6),
        ethertype: be16(frame[12], frame[13]),
    }
}

/// What follows the Ethernet header.
pub open spec fn ethernet_payload_of(frame: Seq<u8>) -> Seq<u8> {
    if frame.len() <= 14 {
        Seq::empty()
    } else {
        frame.subrange(14, frame.len() as int)
    }
}

/// The fixed fields of an IPv4 header as they stand in the packet.
#[derive(Clone, Copy, Debug)]
pub struct Ipv4Fields {
    pub version: u8,
    pub header_length: u8,
    pub dscp: u8,
    pub ecn: u8,
    pub total_length: u16,
    pub identification: u16,
    pub flags: u8,
    pub fragment_offset: u16,
    pub ttl: u8,
    pub next_level_protocol: u8,
    pub checksum: u16,
    pub source: (u8, u8, u8, u8),
    pub destination: (u8, u8, u8, u8),
}

/// The IPv4 header fields of a packet of at least twenty bytes.
pub open spec fn ipv4_fields_of(p: Seq<u8>) -> Ipv4Fields {
    Ipv4Fields {
        version: (p[0] as int / 16) as u8,
        header_length: (p[0] as int % 16) as u8,
        dscp: (p[1] as int / 4) as u8,
        ecn: (p[1] as int % 4) as u8,
        total_length: be16(p[2], p[3]),
        identification: be16(p[4], p[5]),
        flags: (p[6] as int / 32) as u8,
        fragment_offset: be16((p[6] as int % 32) as u8, p[7]),
        ttl: p[8],
        next_level_protocol: p[9],
        checksum: be16(p[10], p[11]),
        source: four_at(p, 12),
        destination: four_at(p, 16),
    }
}

/// Number of option bytes that the header length field announces: four
/// bytes for each word beyond the fifth.
pub open spec fn ipv4_options_len(p: Seq<u8>) -> int {
    let header = (p[0] as int % 16) * 4;
    if header > 20 {
        header - 20
    } else {
        0
    }
}

/// Number of payload bytes that the length fields announce: the total
/// length less the header length, and zero where that would be negative.
pub open spec fn ipv4_announced_payload_len(p: Seq<u8>) -> int {
    let header = (p[0] as int % 16) * 4;
    let total = be16(p[2], p[3]) as int;
    if total > header {
        total - header
    } else {
        0
    }
}

/// The smaller of two numbers.
pub open spec fn least(a: int, b: int) -> int {
    if a <= b {
        a
    } else {
        b
    }
}

/// The option bytes of an IPv4 packet of at least twenty bytes: what the
/// header length field announces, as far as the packet reaches.
pub open spec fn ipv4_options_of(p: Seq<u8>) -> Seq<u8> {
    p.subrange(20, least(20 + ipv4_options_len(p), p.len() as int))
}

/// The payload of an IPv4 packet of at least twenty bytes: what follows the
/// options, as far as the length fields announce and the packet reaches.
pub open spec fn ipv4_payload_of(p: Seq<u8>) -> Seq<u8> {
    let start = 20 + ipv4_options_len(p);
    if p.len() <= start {
        Seq::empty()
    } else {
        p.subrange(start, least(start + ipv4_announced_payload_len(p), p.len() as int))
    }
}

/// Number of bytes that the first option of a non-empty option area takes:
/// one for the two options without a length byte, else the type byte, the
/// length byte and as many data bytes as the length byte announces beyond
/// those two.
pub open spec fn ipv4_option_size(options: Seq<u8>) -> int {
    let number = options[0] as int % 32;
    if number == 0 || number == 1 {
        1
    } else if options.len() >= 2 && options[1] >= 2 {
        options[1] as int
    } else {
        2
    }
}

/// The first byte of each option in an option area, one option after the
/// other.
pub open spec fn ipv4_option_bytes_in(options: Seq<u8>) -> Seq<u8>
    decreases options.len(),
{
    if options.len() == 0 {
        Seq::empty()
    } else {
        let step = least(ipv4_option_size(options), options.len() as int);
        seq![options[0]] + ipv4_option_bytes_in(options.subrange(step, options.len() as int))
    }
}

/// The three fields of the first byte of an option: the copied flag in the
/// top bit, the class in the two bits below it, and the number in the low
/// five bits.
pub open spec fn option_parts_of(first: u8) -> (u8, u8, u8) {
    ((first as int / 128) as u8, (first as int / 32 % 4) as u8, (first as int % 32) as u8)
}

/// The copied flag, the class and the number of each option in an option
/// area, one option after the other.
pub open spec fn ipv4_option_parts_in(options: Seq<u8>) -> Seq<(u8, u8, u8)> {
    Seq::new(
        ipv4_option_bytes_in(options).len(),
        |i: int| option_parts_of(ipv4_option_bytes_in(options)[i]),
    )
}

/// The fixed fields of a TCP header as they stand in the segment.
#[derive(Clone, Copy, Debug)]
pub struct TcpFields {
    pub source: u16,
    pub destination: u16,
    pub sequence: u32,
    pub acknowledgement: u32,
    pub data_offset: u8,
    pub flags: u8,
    pub window: u16,
    pub checksum: u16,
    pub urgent_ptr: u16,
}

/// The TCP header fields of a segment of at least twenty bytes.
pub open spec fn tcp_fields_of(p: Seq<u8>) -> TcpFields {
    TcpFields {
        source: be16(p[0], p[1]),
        destination: be16(p[2], p[3]),
        sequence: be32(p[4], p[5], p[6], p[7]),
        acknowledgement: be32(p[8], p[9], p[10], p[11]),
        data_offset: (p[12] as int / 16) as u8,
        flags: p[13],
        window: be16(p[14], p[15]),
        checksum: be16(p[16], p[17]),
        urgent_ptr: be16(p[18], p[19]),
    }
}

/// The payload of a TCP segment of at least twenty bytes: what follows the
/// header and the options that the data offset announces.
pub open spec fn tcp_payload_of(p: Seq<u8>) -> Seq<u8> {
    let offset = p[12] as int / 16;
    let start = if offset > 5 {
        offset * 4
    } else {
        20
    };
    if p.len() <= start {
        Seq::empty()
    } else {
        p.subrange(start, p.len() as int)
    }
}

/// The fields of a UDP header as they stand in the datagram.
#[derive(Clone, Copy, Debug)]
pub struct UdpFields {
    pub source: u16,
    pub destination: u16,
    pub length: u16,
    pub checksum: u16,
}

/// The UDP header fields of a datagram of at least eight bytes.
pub open spec fn udp_fields_of(p: Seq<u8>) -> UdpFields {
    UdpFields {
        source: be16(p[0], p[1]),
        destination: be16(p[2], p[3]),
        length: be16(p[4], p[5]),
        checksum: be16(p[6], p[7]),
    }
}

/// What follows the UDP header.
pub open spec fn udp_payload_of(p: Seq<u8>) -> Seq<u8> {
    if p.len() <= 8 {
        Seq::empty()
    } else {
        p.subrange(8, p.len() as int)
    }
}

/// A hardware address as text.
pub open spec fn mac_text_of(address: (u8, u8, u8, u8, u8, u8)) -> Seq<char> {
    crate::text::hex_pair(address.0) + seq![':'] + crate::text::hex_pair(address.1) + seq![':']
        + crate::text::hex_pair(address.2) + seq![':'] + crate::text::hex_pair(address.3)
        + seq![':'] + crate::text::hex_pair(address.4) + seq![':'] + crate::text::hex_pair(
        address.5,
    )
}

/// Reads the Ethernet header with `pnet::packet::ethernet::EthernetPacket`.
/// Its `new` accepts a frame of fourteen bytes or more and no shorter one;
/// `get_destination`, `get_source` and `get_ethertype` return the six, six
/// and two bytes that stand in that order at the start of the frame, the
/// ethertype in network order.
#[verifier::external_body]
pub(crate) fn ethernet_fields(frame: &[u8]) -> (r: Option<EthernetFields>)
    ensures
        r == if frame@.len() >= ETHERNET_HEADER_LEN {
            Some(ethernet_fields_of(frame@))
        } else {
            None
        },
{
    let p = EthernetPacket::new(frame)?;
    let (d, s) = (p.get_destination(), p.get_source());
    Some(EthernetFields {
        destination: (d.0, d.1, d.2, d.3, d.4, d.5),
        source: (s.0, s.1, s.2, s.3, s.4, s.5),
        ethertype: p.get_ethertype().0,
    })
}

/// The payload of a frame that `pnet::packet::ethernet::EthernetPacket::new`
/// accepts, from `payload` of the packet: all that follows the header.
#[verifier::external_body]
pub(crate) fn ethernet_payload(frame: &[u8]) -> (r: Vec<u8>)
    requires
        frame@.len() >= ETHERNET_HEADER_LEN,
    ensures
        r@ == ethernet_payload_of(frame@),
{
    EthernetPacket::new(frame).map(|p| p.payload().to_vec()).unwrap_or_default()
}

/// Reads the fixed IPv4 header with `pnet::packet::ipv4::Ipv4Packet`. Its
/// `new` accepts a packet of twenty bytes or more, whatever its length
/// fields hold, and no shorter one. The getters return the fields in the
/// order and width of the header: version and header length of four bits
/// each, six bits of DSCP and two of ECN, total length and identification
/// of sixteen bits, three flag bits and thirteen bits of fragment offset,
/// time to live, protocol, checksum, and the two addresses; numbers of
/// more than one byte in network order.
#[verifier::external_body]
pub(crate) fn ipv4_fields(packet: &[u8]) -> (r: Option<Ipv4Fields>)
    ensures
        r == if packet@.len() >= IPV4_HEADER_LEN {
            Some(ipv4_fields_of(packet@))
        } else {
            None
        },
{
    let p = Ipv4Packet::new(packet)?;
    Some(Ipv4Fields {
        version: p.get_version(), header_length: p.get_header_length(),
        dscp: p.get_dscp(), ecn: p.get_ecn(),
        total_length: p.get_total_length(),
        identification: p.get_identification(),
        flags: p.get_flags(),
        fragment_offset: p.get_fragment_offset(),
        ttl: p.get_ttl(),
        next_level_protocol: p.get_next_level_protocol().0,
        checksum: p.get_checksum(),
        source: p.get_source().octets().into(),
        destination: p.get_destination().octets().into(),
    })
}

/// The copied flag, the class and the number of each option of a packet
/// that `pnet::packet::ipv4::Ipv4Packet::new` accepts, from
/// `get_options_iter` of the packet and `get_copied`, `get_class` and
/// `get_number` of each option: the top bit, the two bits below it and the
/// low five bits of the option's first byte.
/// The iterator starts at byte twenty and covers as many bytes as
/// the header length announces beyond twenty, at most up to the end of the
/// packet. It yields an option as long as a byte is left, and steps over it
/// by its size: one byte for the numbers zero and one; for every other
/// number the type byte, the length byte, and as many data bytes as the
/// length byte counts beyond two.
#[verifier::external_body]
pub(crate) fn ipv4_option_parts(packet: &[u8]) -> (r: Vec<(u8, u8, u8)>)
    requires
        packet@.len() >= IPV4_HEADER_LEN,
    ensures
        r@ == ipv4_option_parts_in(ipv4_options_of(packet@)),
{
    Ipv4Packet::new(packet)
        .map(|p| {
            p.get_options_iter()
                .map(|o| (o.get_copied(), o.get_class(), o.get_number().0))
                .collect()
        })
        .unwrap_or_default()
}

/// The payload of a packet that `pnet::packet::ipv4::Ipv4Packet::new`
/// accepts, from `payload` of the packet: the bytes after the announced
/// options, as many as the total length counts beyond the header length,
/// at most up to the end of the packet; none where the packet ends before.
#[verifier::external_body]
pub(crate) fn ipv4_payload(packet: &[u8]) -> (r: Vec<u8>)
    requires
        packet@.len() >= IPV4_HEADER_LEN,
    ensures
        r@ == ipv4_payload_of(packet@),
{
    Ipv4Packet::new(packet).map(|p| p.payload().to_vec()).unwrap_or_default()
}

/// Reads the fixed TCP header with `pnet::packet::tcp::TcpPacket`. Its `new`
/// accepts a segment of twenty bytes or more and no shorter one. The getters
/// return the fields in the order and width of the header: the two ports,
/// sequence and acknowledgement number of thirty-two bits, four bits of
/// data offset, four reserved bits, the flags byte, window, checksum and
/// urgent pointer; numbers of more than one byte in network order.
#[verifier::external_body]
pub(crate) fn tcp_fields(segment: &[u8]) -> (r: Option<TcpFields>)
    ensures
        r == if segment@.len() >= TCP_HEADER_LEN {
            Some(tcp_fields_of(segment@))
        } else {
            None
        },
{
    let p = TcpPacket::new(segment)?;
    Some(TcpFields {
        source: p.get_source(),
        destination: p.get_destination(),
        sequence: p.get_sequence(),
        acknowledgement: p.get_acknowledgement(),
        data_offset: p.get_data_offset(),
        flags: p.get_flags(),
        window: p.get_window(),
        checksum: p.get_checksum(),
        urgent_ptr: p.get_urgent_ptr(),
    })
}

/// The payload of a segment that `pnet::packet::tcp::TcpPacket::new`
/// accepts, from `payload` of the packet: all that follows the header and
/// the options, which take four bytes for each word of the data offset
/// beyond the fifth; none where the segment ends before.
#[verifier::external_body]
pub(crate) fn tcp_payload(segment: &[u8]) -> (r: Vec<u8>)
    requires
        segment@.len() >= TCP_HEADER_LEN,
    ensures
        r@ == tcp_payload_of(segment@),
{
    TcpPacket::new(segment).map(|p| p.payload().to_vec()).unwrap_or_default()
}

/// Reads the UDP header with `pnet::packet::udp::UdpPacket`. Its `new`
/// accepts a datagram of eight bytes or more and no shorter one; the getters
/// return source port, destination port, length and checksum, each of two
/// bytes in network order.
#[verifier::external_body]
pub(crate) fn udp_fields(datagram: &[u8]) -> (r: Option<UdpFields>)
    ensures
        r == if datagram@.len() >= UDP_HEADER_LEN {
            Some(udp_fields_of(datagram@))
        } else {
            None
        },
{
    let p = UdpPacket::new(datagram)?;
    Some(UdpFields {
        source: p.get_source(),
        destination: p.get_destination(),
        length: p.get_length(),
        checksum: p.get_checksum(),
    })
}

/// The payload of a datagram that `pnet::packet::udp::UdpPacket::new`
/// accepts, from `payload` of the packet: all that follows the header,
/// whatever the length field holds.
#[verifier::external_body]
pub(crate) fn udp_payload(datagram: &[u8]) -> (r: Vec<u8>)
    requires
        datagram@.len() >= UDP_HEADER_LEN,
    ensures
        r@ == udp_payload_of(datagram@),
{
    UdpPacket::new(datagram).map(|p| p.payload().to_vec()).unwrap_or_default()
}

/// The text of a hardware address, from `to_string` of
/// `pnet::util::MacAddr`: the six bytes as pairs of lower-case hexadecimal
/// digits with colons between them.
#[verifier::external_body]
pub(crate) fn mac_text(address: (u8, u8, u8, u8, u8, u8)) -> (s: String)
    ensures
        s@ == mac_text_of(address),
{
    let (a, b, c, d, e, f) = address;
    MacAddr::new(a, b, c, d, e, f).to_string()
}

} // verus!
