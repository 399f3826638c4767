//! The transport layer: TCP segments and UDP datagrams.

use crate::application::{application_of, parse_app_layer, Application, ApplicationView};
use crate::descriptor::ProtocolType;
use crate::text::{decimal, decimal_text, fields_view, push_decimal, push_field};
use crate::wire::{
    tcp_fields, tcp_fields_of, tcp_payload, tcp_payload_of, udp_fields, udp_fields_of, udp_payload,
    udp_payload_of, TCP_HEADER_LEN, UDP_HEADER_LEN,
};
use vstd::prelude::*;
use vstd::string::StringExecFns;

verus! {

/// The six control bits of a TCP header.
#[derive(Debug, Clone, Copy, PartialEq, Eq, Structural)]
pub struct TcpFlags {
    pub urg: bool,
    pub ack: bool,
    pub psh: bool,
    pub rst: bool,
    pub syn: bool,
    pub fin: bool,
}

/// The fixed fields of a TCP header.
#[derive(Debug, Clone, Copy, PartialEq, Eq, Structural)]
pub struct TcpHeader {
    pub source_port: u16,
    pub destination_port: u16,
    pub sequence_number: u32,
    pub acknowledgment_number: u32,
    pub data_offset_reserved_flags: u8,
    pub window_size: u16,
    pub checksum: u16,
    pub urgent_pointer: u16,
    pub flags: TcpFlags,
}

/// A TCP segment: its header and what its payload holds.
#[derive(Debug, Clone)]
pub struct TcpPacket {
    pub header: TcpHeader,
    pub payload: Application,
}

/// The fields of a UDP header.
#[derive(Debug, Clone, Copy, PartialEq, Eq, Structural)]
pub struct UdpHeader {
    pub source_port: u16,
    pub destination_port: u16,
    pub length: u16,
    pub checksum: u16,
}

/// A UDP datagram: its header and what its payload holds.
#[derive(Debug, Clone)]
pub struct UdpPacket {
    pub header: UdpHeader,
    pub payload: Application,
}

/// A transport layer of either kind.
#[derive(Debug, Clone)]
pub enum Transport {
    Tcp(TcpPacket),
    Udp(UdpPacket),
}

/// A TCP segment as a mathematical value.
pub struct TcpPacketView {
    pub header: TcpHeader,
    pub payload: ApplicationView,
}

/// A UDP datagram as a mathematical value.
pub struct UdpPacketView {
    pub header: UdpHeader,
    pub payload: ApplicationView,
}

/// A transport layer as a mathematical value.
pub enum TransportView {
    Tcp(TcpPacketView),
    Udp(UdpPacketView),
}

impl View for TcpPacket {
    type V = TcpPacketView;

    open spec fn view(&self) -> TcpPacketView {
        TcpPacketView { header: self.header, payload: self.payload@ }
    }
}

impl View for UdpPacket {
    type V = UdpPacketView;

    open spec fn view(&self) -> UdpPacketView {
        UdpPacketView { header: self.header, payload: self.payload@ }
    }
}

impl View for Transport {
    type V = TransportView;

    open spec fn view(&self) -> TransportView {
        match self {
            Transport::Tcp(packet) => TransportView::Tcp(packet@),
            Transport::Udp(packet) => TransportView::Udp(packet@),
        }
    }
}

/// Whether `byte` has a bit of `mask` set.
pub open spec fn bit_set(byte: u8, mask: u8) -> bool {
    byte & mask != 0
}

/// The control bits that a flags byte holds: URG, ACK, PSH, RST, SYN and FIN
/// from bit five down to bit zero.
pub open spec fn tcp_flags_of(flags_byte: u8) -> TcpFlags {
    TcpFlags {
        urg: bit_set(flags_byte, 0x20),
        ack: bit_set(flags_byte, 0x10),
        psh: bit_set(flags_byte, 0x08),
        rst: bit_set(flags_byte, 0x04),
        syn: bit_set(flags_byte, 0x02),
        fin: bit_set(flags_byte, 0x01),
    }
}

/// The header of a segment of at least twenty bytes.
pub open spec fn tcp_header_of(segment: Seq<u8>) -> TcpHeader {
    let fields = tcp_fields_of(segment);
    TcpHeader {
        source_port: fields.source,
        destination_port: fields.destination,
        sequence_number: fields.sequence,
        acknowledgment_number: fields.acknowledgement,
        data_offset_reserved_flags: fields.data_offset,
        window_size: fields.window,
        checksum: fields.checksum,
        urgent_pointer: fields.urgent_ptr,
        flags: tcp_flags_of(fields.flags),
    }
}

/// The TCP layer that `segment` decodes to: none where it is shorter than a
/// TCP header, else the header and the classified payload.
pub open spec fn tcp_packet_of(segment: Seq<u8>) -> Option<TcpPacketView> {
    if segment.len() >= TCP_HEADER_LEN {
        Some(
            TcpPacketView {
                header: tcp_header_of(segment),
                payload: application_of(tcp_payload_of(segment)),
            },
        )
    } else {
        None
    }
}

/// The header of a datagram of at least eight bytes.
pub open spec fn udp_header_of(datagram: Seq<u8>) -> UdpHeader {
    let fields = udp_fields_of(datagram);
    UdpHeader {
        source_port: fields.source,
        destination_port: fields.destination,
        length: fields.length,
        checksum: fields.checksum,
    }
}

/// The UDP layer that `datagram` decodes to: none where it is shorter than
/// a UDP header, else the header and the classified payload.
pub open spec fn udp_packet_of(datagram: Seq<u8>) -> Option<UdpPacketView> {
    if datagram.len() >= UDP_HEADER_LEN {
        Some(
            UdpPacketView {
                header: udp_header_of(datagram),
                payload: application_of(udp_payload_of(datagram)),
            },
        )
    } else {
        None
    }
}

/// The digit `1` for a set flag and `0` for a clear one.
pub open spec fn flag_digit(flag: bool) -> Seq<char> {
    decimal(if flag { 1nat } else { 0nat })
}

/// The six control bits as text.
pub open spec fn tcp_flags_text(flags: TcpFlags) -> Seq<char> {
    "ack : "@ + flag_digit(flags.ack) + ", psh : "@ + flag_digit(flags.psh) + ", rst : "@
        + flag_digit(flags.rst) + ", syn : "@ + flag_digit(flags.syn) + ", fin : "@ + flag_digit(
        flags.fin,
    ) + ", urg : "@ + flag_digit(flags.urg)
}

/// The text `<name> Source Port <source> -> Destination <destination>`.
pub open spec fn ports_text(name: Seq<char>, source: u16, destination: u16) -> Seq<char> {
    name + " Source Port "@ + decimal(source as nat) + " -> Destination "@ + decimal(
        destination as nat,
    )
}

impl TcpPacketView {
    /// The one-line description of the layer.
    pub open spec fn info(self) -> Seq<char> {
        ports_text("TCP"@, self.header.source_port, self.header.destination_port)
    }

    /// The fields of the layer.
    pub open spec fn summary(self) -> Seq<(Seq<char>, Seq<char>)> {
        seq![
            ("protocol"@, "tcp"@),
            ("source_port"@, decimal(self.header.source_port as nat)),
            ("destination_port"@, decimal(self.header.destination_port as nat)),
            ("acknowledgment_number"@, decimal(self.header.acknowledgment_number as nat)),
            ("data_offset_reserved_flags"@, decimal(self.header.data_offset_reserved_flags as nat)),
            ("window_size"@, decimal(self.header.window_size as nat)),
            ("checksum"@, decimal(self.header.checksum as nat)),
            ("urgent_pointer"@, decimal(self.header.urgent_pointer as nat)),
            ("flags"@, tcp_flags_text(self.header.flags)),
        ]
    }
}

impl UdpPacketView {
    /// The one-line description of the layer.
    pub open spec fn info(self) -> Seq<char> {
        ports_text("UDP"@, self.header.source_port, self.header.destination_port)
    }

    /// The fields of the layer.
    pub open spec fn summary(self) -> Seq<(Seq<char>, Seq<char>)> {
        seq![
            ("protocol"@, "udp"@),
            ("source_port"@, decimal(self.header.source_port as nat)),
            ("destination_port"@, decimal(self.header.destination_port as nat)),
            ("length"@, decimal(self.header.length as nat)),
            ("checksum"@, decimal(self.header.checksum as nat)),
        ]
    }
}

impl TransportView {
    /// What the payload of the layer holds.
    pub open spec fn payload(self) -> ApplicationView {
        match self {
            TransportView::Tcp(packet) => packet.payload,
            TransportView::Udp(packet) => packet.payload,
        }
    }
}

impl TcpHeader {
    /// Decodes the flags byte of a TCP header into its six control bits.
    pub fn set_tcp_flags(flags_byte: u8) -> (flags: TcpFlags)
        ensures
            flags == tcp_flags_of(flags_byte),
    {
        TcpFlags {
            urg: (flags_byte & 0x20) != 0,
            ack: (flags_byte & 0x10) != 0,
            psh: (flags_byte & 0x08) != 0,
            rst: (flags_byte & 0x04) != 0,
            syn: (flags_byte & 0x02) != 0,
            fin: (flags_byte & 0x01) != 0,
        }
    }
}

/// Appends the digit of a flag to `s`.
fn push_flag(s: &mut String, label: &str, flag: bool)
    ensures
        final(s)@ == old(s)@ + label@ + flag_digit(flag),
{
    s.append(label);
    push_decimal(s, if flag { 1 } else { 0 });
}

/// The text `<name> Source Port <source> -> Destination <destination>`.
fn ports_info(name: &str, source: u16, destination: u16) -> (s: String)
    ensures
        s@ == ports_text(name@, source, destination),
{
    let mut s = String::from_str(name);
    s.append(" Source Port ");
    push_decimal(&mut s, source as u64);
    s.append(" -> Destination ");
    push_decimal(&mut s, destination as u64);
    s
}

impl TcpPacket {
    /// Decodes a TCP segment: its header, and its payload classified. `None`
    /// where the segment is shorter than a TCP header.
    pub fn new(packet: &[u8]) -> (r: Option<TcpPacket>)
        ensures
            match r {
                Some(layer) => tcp_packet_of(packet@) == Some(layer@),
                None => tcp_packet_of(packet@) is None,
            },
    {
        let fields = match tcp_fields(packet) {
            None => {
                return None;
            },
            Some(fields) => fields,
        };
        let header = TcpHeader {
            source_port: fields.source,
            destination_port: fields.destination,
            sequence_number: fields.sequence,
            acknowledgment_number: fields.acknowledgement,
            data_offset_reserved_flags: fields.data_offset,
            window_size: fields.window,
            checksum: fields.checksum,
            urgent_pointer: fields.urgent_ptr,
            flags: TcpHeader::set_tcp_flags(fields.flags),
        };
        let bytes = tcp_payload(packet);
        let payload = parse_app_layer(bytes.as_slice());
        Some(TcpPacket { header, payload })
    }

    /// The fields of the layer, the field `protocol` first.
    pub fn get_summary(&self) -> (fields: Vec<(String, String)>)
        ensures
            fields_view(fields@) == self@.summary(),
    {
        let header = self.header;
        let mut flags = String::new();
        push_flag(&mut flags, "ack : ", header.flags.ack);
        push_flag(&mut flags, ", psh : ", header.flags.psh);
        push_flag(&mut flags, ", rst : ", header.flags.rst);
        push_flag(&mut flags, ", syn : ", header.flags.syn);
        push_flag(&mut flags, ", fin : ", header.flags.fin);
        push_flag(&mut flags, ", urg : ", header.flags.urg);
        let mut fields: Vec<(String, String)> = Vec::new();
        push_field(&mut fields, "protocol", String::from_str("tcp"));
        push_field(&mut fields, "source_port", decimal_text(header.source_port as u64));
        push_field(&mut fields, "destination_port", decimal_text(header.destination_port as u64));
        push_field(
            &mut fields,
            "acknowledgment_number",
            decimal_text(header.acknowledgment_number as u64),
        );
        push_field(
            &mut fields,
            "data_offset_reserved_flags",
            decimal_text(header.data_offset_reserved_flags as u64),
        );
        push_field(&mut fields, "window_size", decimal_text(header.window_size as u64));
        push_field(&mut fields, "checksum", decimal_text(header.checksum as u64));
        push_field(&mut fields, "urgent_pointer", decimal_text(header.urgent_pointer as u64));
        push_field(&mut fields, "flags", flags);
        fields
    }

    /// The identity of the layer.
    pub fn protocol(&self) -> (tag: ProtocolType)
        ensures
            tag == ProtocolType::Tcp,
    {
        ProtocolType::Tcp
    }

    /// The application layer that the segment carries.
    pub fn get_next(&self) -> (next: &Application)
        ensures
            next@ == self@.payload,
    {
        &self.payload
    }

    /// The source of the layer: the source port.
    pub fn source(&self) -> (s: String)
        ensures
            s@ == decimal(self@.header.source_port as nat),
    {
        decimal_text(self.header.source_port as u64)
    }

    /// The destination of the layer: the destination port.
    pub fn destination(&self) -> (s: String)
        ensures
            s@ == decimal(self@.header.destination_port as nat),
    {
        decimal_text(self.header.destination_port as u64)
    }

    /// The one-line description of the layer.
    pub fn info(&self) -> (s: String)
        ensures
            s@ == self@.info(),
    {
        ports_info("TCP", self.header.source_port, self.header.destination_port)
    }
}

impl UdpPacket {
    /// Decodes a UDP datagram: its header, and its payload classified.
    /// `None` where the datagram is shorter than a UDP header.
    pub fn new(packet: &[u8]) -> (r: Option<UdpPacket>)
        ensures
            match r {
                Some(layer) => udp_packet_of(packet@) == Some(layer@),
                None => udp_packet_of(packet@) is None,
            },
    {
        let fields = match udp_fields(packet) {
            None => {
                return None;
            },
            Some(fields) => fields,
        };
        let header = UdpHeader {
            source_port: fields.source,
            destination_port: fields.destination,
            length: fields.length,
            checksum: fields.checksum,
        };
        let bytes = udp_payload(packet);
        let payload = parse_app_layer(bytes.as_slice());
        Some(UdpPacket { header, payload })
    }

    /// The fields of the layer, the field `protocol` first.
    pub fn get_summary(&self) -> (fields: Vec<(String, String)>)
        ensures
            fields_view(fields@) == self@.summary(),
    {
        let header = self.header;
        let mut fields: Vec<(String, String)> = Vec::new();
        push_field(&mut fields, "protocol", String::from_str("udp"));
        push_field(&mut fields, "source_port", decimal_text(header.source_port as u64));
        push_field(&mut fields, "destination_port", decimal_text(header.destination_port as u64));
        push_field(&mut fields, "length", decimal_text(header.length as u64));
        push_field(&mut fields, "checksum", decimal_text(header.checksum as u64));
        fields
    }

    /// The identity of the layer.
    pub fn protocol(&self) -> (tag: ProtocolType)
        ensures
            tag == ProtocolType::Udp,
    {
        ProtocolType::Udp
    }

    /// The application layer that the datagram carries.
    pub fn get_next(&self) -> (next: &Application)
        ensures
            next@ == self@.payload,
    {
        &self.payload
    }

    /// The source of the layer: the source port.
    pub fn source(&self) -> (s: String)
        ensures
            s@ == decimal(self@.header.source_port as nat),
    {
        decimal_text(self.header.source_port as u64)
    }

    /// The destination of the layer: the destination port.
    pub fn destination(&self) -> (s: String)
        ensures
            s@ == decimal(self@.header.destination_port as nat),
    {
        decimal_text(self.header.destination_port as u64)
    }

    /// The one-line description of the layer.
    pub fn info(&self) -> (s: String)
        ensures
            s@ == self@.info(),
    {
        ports_info("UDP", self.header.source_port, self.header.destination_port)
    }
}

} // verus!
