//! The internet layer: IPv4 packets, and the shape of an IPv6 header.

use crate::descriptor::{
    known_descriptor, malformed_descriptor, malformed_name, unknown_name, ExtendedType,
    ProtocolDescriptor, ProtocolDescriptorView, ProtocolType, SetProtocolDescriptor,
};
use crate::text::{
    decimal, decimal_text, dotted_quad, fields_view, prefixed_hex, push_decimal,
    push_dotted_quad, push_field, push_prefixed_hex, push_truth, truth,
};
use crate::transport::{
    tcp_packet_of, udp_packet_of, TcpPacket, Transport, TransportView, UdpPacket,
};
use crate::wire::{
    ipv4_fields, ipv4_fields_of, ipv4_option_bytes_in, ipv4_option_parts, ipv4_options_of,
    ipv4_payload, ipv4_payload_of, option_parts_of, IPV4_HEADER_LEN,
};
use vstd::prelude::*;
use vstd::string::StringExecFns;

verus! {

/// The next-header code of TCP.
pub const PROTOCOL_TCP: u8 = 6;

/// The next-header code of UDP.
pub const PROTOCOL_UDP: u8 = 17;

/// The next-header code of IPv4 carried in IPv4.
pub const PROTOCOL_IPV4: u8 = 4;

/// The next-header code of IPv6 carried in IPv4.
pub const PROTOCOL_IPV6: u8 = 41;

/// The three flag bits of an IPv4 header.
#[derive(Clone, Copy, Debug, PartialEq, Eq, Structural)]
pub struct Ipv4Flags {
    pub reserved: bool,
    pub dontfrag: bool,
    pub morefrag: bool,
}

/// The kind of an IPv4 option.
#[derive(Clone, Debug)]
pub enum Ipv4Options {
    Eol,
    Nop,
    Lsrr,
    Ssrr,
    Rr,
    Timestamp,
    /// An option of another number, with a text that shows the number.
    Unknown(String),
}

/// The kind of an IPv4 option as a mathematical value.
pub enum Ipv4OptionsView {
    Eol,
    Nop,
    Lsrr,
    Ssrr,
    Rr,
    Timestamp,
    Unknown(Seq<char>),
}

impl View for Ipv4Options {
    type V = Ipv4OptionsView;

    open spec fn view(&self) -> Ipv4OptionsView {
        match self {
            Ipv4Options::Eol => Ipv4OptionsView::Eol,
            Ipv4Options::Nop => Ipv4OptionsView::Nop,
            Ipv4Options::Lsrr => Ipv4OptionsView::Lsrr,
            Ipv4Options::Ssrr => Ipv4OptionsView::Ssrr,
            Ipv4Options::Rr => Ipv4OptionsView::Rr,
            Ipv4Options::Timestamp => Ipv4OptionsView::Timestamp,
            Ipv4Options::Unknown(text) => Ipv4OptionsView::Unknown(text@),
        }
    }
}

/// The fields of an IPv4 header.
#[derive(Clone, Debug)]
pub struct Ipv4Header {
    pub version_ihl: u8,
    pub dscp: u8,
    pub ecn: u8,
    pub total_length: u16,
    pub identification: u16,
    pub options: Vec<Ipv4Options>,
    pub flags_fragment_offset: u16,
    pub time_to_live: u8,
    pub header_checksum: u16,
    pub source_address: String,
    pub destination_address: String,
    pub next_header: ProtocolDescriptor<ExtendedType<u8>>,
    pub flags: Ipv4Flags,
}

/// An IPv4 header as a mathematical value.
pub struct Ipv4HeaderView {
    pub version_ihl: u8,
    pub dscp: u8,
    pub ecn: u8,
    pub total_length: u16,
    pub identification: u16,
    pub options: Seq<Ipv4OptionsView>,
    pub flags_fragment_offset: u16,
    pub time_to_live: u8,
    pub header_checksum: u16,
    pub source_address: Seq<char>,
    pub destination_address: Seq<char>,
    pub next_header: ProtocolDescriptorView<ExtendedType<u8>>,
    pub flags: Ipv4Flags,
}

/// The views of a list of options.
pub open spec fn option_views(options: Seq<Ipv4Options>) -> Seq<Ipv4OptionsView> {
    Seq::new(options.len(), |i: int| options[i]@)
}

impl View for Ipv4Header {
    type V = Ipv4HeaderView;

    open spec fn view(&self) -> Ipv4HeaderView {
        Ipv4HeaderView {
            version_ihl: self.version_ihl,
            dscp: self.dscp,
            ecn: self.ecn,
            total_length: self.total_length,
            identification: self.identification,
            options: option_views(self.options@),
            flags_fragment_offset: self.flags_fragment_offset,
            time_to_live: self.time_to_live,
            header_checksum: self.header_checksum,
            source_address: self.source_address@,
            destination_address: self.destination_address@,
            next_header: self.next_header@,
            flags: self.flags,
        }
    }
}

/// An IPv4 packet: its header and the transport layer that it carries, if
/// one could be decoded.
#[derive(Clone, Debug)]
pub struct Ipv4Packet {
    pub header: Ipv4Header,
    pub payload: Option<Transport>,
}

/// An IPv4 packet as a mathematical value.
pub struct Ipv4PacketView {
    pub header: Ipv4HeaderView,
    pub payload: Option<TransportView>,
}

impl View for Ipv4Packet {
    type V = Ipv4PacketView;

    open spec fn view(&self) -> Ipv4PacketView {
        Ipv4PacketView {
            header: self.header@,
            payload: match self.payload {
                Some(transport) => Some(transport@),
                None => None,
            },
        }
    }
}

/// The fields of an IPv6 header. No decoder fills it: an IPv6 payload is
/// left undecoded.
#[derive(Clone, Debug)]
pub struct Ipv6Header {
    pub payload: Vec<u8>,
    pub traffic_class: u8,
    pub flow_label: u16,
    pub payload_length: u16,
    pub hop_limit: u8,
    pub source: String,
    pub destination: String,
    pub version: u8,
}

/// An IPv6 header as a mathematical value.
pub struct Ipv6HeaderView {
    pub payload: Seq<u8>,
    pub traffic_class: u8,
    pub flow_label: u16,
    pub payload_length: u16,
    pub hop_limit: u8,
    pub source: Seq<char>,
    pub destination: Seq<char>,
    pub version: u8,
}

impl View for Ipv6Header {
    type V = Ipv6HeaderView;

    open spec fn view(&self) -> Ipv6HeaderView {
        Ipv6HeaderView {
            payload: self.payload@,
            traffic_class: self.traffic_class,
            flow_label: self.flow_label,
            payload_length: self.payload_length,
            hop_limit: self.hop_limit,
            source: self.source@,
            destination: self.destination@,
            version: self.version,
        }
    }
}

impl Ipv6HeaderView {
    /// The one-line description of the layer.
    pub open spec fn info(self) -> Seq<char> {
        "IPv6 "@ + self.source + " -> "@ + self.destination
    }

    /// The fields of the layer.
    pub open spec fn summary(self) -> Seq<(Seq<char>, Seq<char>)> {
        seq![
            ("protocol"@, "ipv6"@),
            ("version"@, decimal(self.version as nat)),
            ("traffic_class"@, decimal(self.traffic_class as nat)),
            ("flow_label"@, decimal(self.flow_label as nat)),
            ("payload_length"@, decimal(self.payload_length as nat)),
            ("hop_limit"@, decimal(self.hop_limit as nat)),
            ("source"@, self.source),
            ("destination"@, self.destination),
        ]
    }
}

impl Ipv6Header {
    /// The fields of the layer, the field `protocol` first.
    pub fn get_summary(&self) -> (fields: Vec<(String, String)>)
        ensures
            fields_view(fields@) == self@.summary(),
    {
        let mut fields: Vec<(String, String)> = Vec::new();
        push_field(&mut fields, "protocol", String::from_str("ipv6"));
        push_field(&mut fields, "version", decimal_text(self.version as u64));
        push_field(&mut fields, "traffic_class", decimal_text(self.traffic_class as u64));
        push_field(&mut fields, "flow_label", decimal_text(self.flow_label as u64));
        push_field(&mut fields, "payload_length", decimal_text(self.payload_length as u64));
        push_field(&mut fields, "hop_limit", decimal_text(self.hop_limit as u64));
        push_field(&mut fields, "source", self.source.clone());
        push_field(&mut fields, "destination", self.destination.clone());
        fields
    }

    /// The identity of the layer.
    pub fn protocol_type(&self) -> (tag: ProtocolType)
        ensures
            tag == ProtocolType::Ipv6,
    {
        ProtocolType::Ipv6
    }

    /// The source of the layer: the source address.
    pub fn source(&self) -> (s: String)
        ensures
            s@ == self@.source,
    {
        self.source.clone()
    }

    /// The destination of the layer: the destination address.
    pub fn destination(&self) -> (s: String)
        ensures
            s@ == self@.destination,
    {
        self.destination.clone()
    }

    /// The one-line description of the layer.
    pub fn info(&self) -> (s: String)
        ensures
            s@ == self@.info(),
    {
        let mut s = String::from_str("IPv6 ");
        s.append(self.source.as_str());
        s.append(" -> ");
        s.append(self.destination.as_str());
        s
    }
}

/// A next-header code, or the mark that no header could be read.
#[derive(Clone, Copy, Debug, PartialEq, Eq, Structural)]
pub enum ExtendedNextHeader {
    Known(u8),
    Malformed,
}

impl Default for ExtendedNextHeader {
    fn default() -> (r: ExtendedNextHeader)
        ensures
            r == ExtendedNextHeader::Malformed,
    {
        ExtendedNextHeader::Malformed
    }
}

/// The flags that the three low bits of `number` hold: reserved, don't
/// fragment and more fragments from bit two down to bit zero.
pub open spec fn ipv4_flags_of(number: u8) -> Ipv4Flags {
    Ipv4Flags {
        reserved: number & 0b100 != 0,
        dontfrag: number & 0b010 != 0,
        morefrag: number & 0b001 != 0,
    }
}

/// The kind of the option whose first byte is `number`: the byte as a
/// whole, with its copied flag and its class, tells the kind.
pub open spec fn option_of(number: u8) -> Ipv4OptionsView {
    if number == 0x00 {
        Ipv4OptionsView::Eol
    } else if number == 0x01 {
        Ipv4OptionsView::Nop
    } else if number == 0x83 {
        Ipv4OptionsView::Lsrr
    } else if number == 0x89 {
        Ipv4OptionsView::Ssrr
    } else if number == 0x07 {
        Ipv4OptionsView::Rr
    } else if number == 0x44 {
        Ipv4OptionsView::Timestamp
    } else {
        Ipv4OptionsView::Unknown("Unknown Option: "@ + prefixed_hex(number as nat))
    }
}

/// The kinds of the options with the given first bytes.
pub open spec fn options_of(numbers: Seq<u8>) -> Seq<Ipv4OptionsView> {
    Seq::new(numbers.len(), |i: int| option_of(numbers[i]))
}

/// The display name of a next-header code.
pub open spec fn next_header_name(code: u8) -> Seq<char> {
    if code == PROTOCOL_IPV4 {
        "IPv4"@
    } else if code == PROTOCOL_TCP {
        "Tcp"@
    } else if code == PROTOCOL_UDP {
        "Udp"@
    } else if code == PROTOCOL_IPV6 {
        "IPv6"@
    } else {
        unknown_name()
    }
}

/// The header of a packet of at least twenty bytes.
pub open spec fn ipv4_header_of(packet: Seq<u8>) -> Ipv4HeaderView {
    let fields = ipv4_fields_of(packet);
    Ipv4HeaderView {
        version_ihl: fields.version,
        dscp: fields.dscp,
        ecn: fields.ecn,
        total_length: fields.total_length,
        identification: fields.identification,
        options: options_of(ipv4_option_bytes_in(ipv4_options_of(packet))),
        flags_fragment_offset: fields.fragment_offset,
        time_to_live: fields.ttl,
        header_checksum: fields.checksum,
        source_address: dotted_quad(
            fields.source.0,
            fields.source.1,
            fields.source.2,
            fields.source.3,
        ),
        destination_address: dotted_quad(
            fields.destination.0,
            fields.destination.1,
            fields.destination.2,
            fields.destination.3,
        ),
        next_header: known_descriptor(
            fields.next_level_protocol,
            next_header_name(fields.next_level_protocol),
        ),
        flags: ipv4_flags_of(fields.flags),
    }
}

/// The transport layer that the payload of a packet with the given
/// next-header code decodes to: TCP and UDP are decoded, every other code
/// ends the chain.
pub open spec fn transport_of(protocol: u8, payload: Seq<u8>) -> Option<TransportView> {
    if protocol == PROTOCOL_TCP {
        match tcp_packet_of(payload) {
            Some(packet) => Some(TransportView::Tcp(packet)),
            None => None,
        }
    } else if protocol == PROTOCOL_UDP {
        match udp_packet_of(payload) {
            Some(packet) => Some(TransportView::Udp(packet)),
            None => None,
        }
    } else {
        None
    }
}

/// The IPv4 layer that `packet` decodes to: none where it is shorter than
/// an IPv4 header, else the header and the transport layer of the payload.
pub open spec fn ipv4_packet_of(packet: Seq<u8>) -> Option<Ipv4PacketView> {
    if packet.len() >= IPV4_HEADER_LEN {
        Some(
            Ipv4PacketView {
                header: ipv4_header_of(packet),
                payload: transport_of(packet[9], ipv4_payload_of(packet)),
            },
        )
    } else {
        None
    }
}

/// The header that stands for an IPv4 header that could not be read.
pub open spec fn malformed_ipv4_header() -> Ipv4HeaderView {
    Ipv4HeaderView {
        version_ihl: 4,
        dscp: 0,
        ecn: 0,
        total_length: 0,
        identification: 0,
        options: Seq::empty(),
        flags_fragment_offset: 0,
        time_to_live: 0,
        header_checksum: 0,
        source_address: Seq::empty(),
        destination_address: Seq::empty(),
        next_header: malformed_descriptor(),
        flags: Ipv4Flags { reserved: false, dontfrag: false, morefrag: false },
    }
}

/// The texts of `items` with a line break between each two.
pub open spec fn lines(items: Seq<Seq<char>>) -> Seq<char>
    decreases items.len(),
{
    if items.len() == 0 {
        Seq::empty()
    } else if items.len() == 1 {
        items[0]
    } else {
        lines(items.drop_last()) + seq!['\n'] + items.last()
    }
}

impl Ipv4OptionsView {
    /// What the option is called.
    pub open spec fn description(self) -> Seq<char> {
        match self {
            Ipv4OptionsView::Eol => "End of Options List"@,
            Ipv4OptionsView::Nop => "No Operation"@,
            Ipv4OptionsView::Lsrr => "Loose Source and Record Route"@,
            Ipv4OptionsView::Ssrr => "Strict Source and Record Route"@,
            Ipv4OptionsView::Rr => "Record Route"@,
            Ipv4OptionsView::Timestamp => "Timestamp"@,
            Ipv4OptionsView::Unknown(text) => text,
        }
    }
}

/// What each of `options` is called.
pub open spec fn descriptions(options: Seq<Ipv4OptionsView>) -> Seq<Seq<char>> {
    Seq::new(options.len(), |i: int| options[i].description())
}

/// The three flags as the text of the field `flags`.
pub open spec fn ipv4_flags_text(flags: Ipv4Flags) -> Seq<char> {
    "reserved : "@ + truth(flags.reserved) + ", dont fragment : "@ + truth(flags.dontfrag)
        + ",  more fragment : "@ + truth(flags.morefrag)
}

impl Ipv4PacketView {
    /// A decoded packet has a next-header code under its own name, and
    /// carries a transport layer only of the kind that the code announces.
    pub open spec fn wf(self) -> bool {
        &&& self.header.next_header.wf()
        &&& self.header.next_header.protocol_type is Known
        &&& self.payload matches Some(TransportView::Tcp(_))
            ==> self.header.next_header.protocol_type == ExtendedType::Known(PROTOCOL_TCP)
        &&& self.payload matches Some(TransportView::Udp(_))
            ==> self.header.next_header.protocol_type == ExtendedType::Known(PROTOCOL_UDP)
    }

    /// The one-line description of the layer.
    pub open spec fn info(self) -> Seq<char> {
        "flags: MoreFrag: "@ + truth(self.header.flags.morefrag) + " DontFrag: "@ + truth(
            self.header.flags.dontfrag,
        ) + " Reserved: "@ + truth(self.header.flags.reserved)
    }

    /// The fields of the layer.
    pub open spec fn summary(self) -> Seq<(Seq<char>, Seq<char>)> {
        seq![
            ("protocol"@, "ipv4"@),
            ("version"@, decimal(self.header.version_ihl as nat)),
            ("dscp"@, decimal(self.header.dscp as nat)),
            ("ecn"@, decimal(self.header.ecn as nat)),
            ("total_length"@, decimal(self.header.total_length as nat)),
            ("identification"@, decimal(self.header.identification as nat)),
            ("flags_fragment_offset"@, decimal(self.header.flags_fragment_offset as nat)),
            ("time_to_live"@, decimal(self.header.time_to_live as nat)),
            ("header_checksum"@, decimal(self.header.header_checksum as nat)),
            ("source_address"@, self.header.source_address),
            ("destination_address"@, self.header.destination_address),
            ("next_header"@, "protocol : "@ + self.header.next_header.protocol_name),
            ("flags"@, ipv4_flags_text(self.header.flags)),
            ("options"@, lines(descriptions(self.header.options))),
        ]
    }
}

/// The display name of a next-header code.
pub fn protocol_to_string(proto: u8) -> (name: &'static str)
    ensures
        name@ == next_header_name(proto),
{
    if proto == PROTOCOL_IPV4 {
        "IPv4"
    } else if proto == PROTOCOL_TCP {
        "Tcp"
    } else if proto == PROTOCOL_UDP {
        "Udp"
    } else if proto == PROTOCOL_IPV6 {
        "IPv6"
    } else {
        "Unknown"
    }
}

/// No next-header code is named `malformed`.
pub proof fn next_header_name_is_not_malformed(code: u8)
    ensures
        next_header_name(code) != malformed_name(),
{
    reveal_strlit("IPv4");
    reveal_strlit("Tcp");
    reveal_strlit("Udp");
    reveal_strlit("IPv6");
    reveal_strlit("Unknown");
    reveal_strlit("malformed");
    assert(next_header_name(code).len() != malformed_name().len());
}

impl SetProtocolDescriptor<u8> for Ipv4Header {
    open spec fn name_of(code: u8) -> Seq<char> {
        next_header_name(code)
    }

    fn set_proto_descriptor(proto: ExtendedType<u8>) -> (descriptor: ProtocolDescriptor<
        ExtendedType<u8>,
    >) {
        let protocol_name = match proto {
            ExtendedType::Known(code) => String::from_str(protocol_to_string(code)),
            ExtendedType::Malformed => String::from_str("malformed"),
        };
        proof {
            if let ExtendedType::Known(code) = proto {
                next_header_name_is_not_malformed(code);
            }
        }
        ProtocolDescriptor { protocol_name, protocol_type: proto }
    }
}

/// The descriptor of a next-header code that was read from a header.
pub fn set_next_header(next_header: u8) -> (descriptor: ProtocolDescriptor<ExtendedType<u8>>)
    ensures
        descriptor@ == known_descriptor(next_header, next_header_name(next_header)),
        descriptor.wf(),
{
    Ipv4Header::set_proto_descriptor(ExtendedType::Known(next_header))
}

impl Ipv4Options {
    /// The kind of the option whose first byte is `number`.
    pub fn from_number(number: u8) -> (option: Ipv4Options)
        ensures
            option@ == option_of(number),
    {
        if number == 0x00 {
            Ipv4Options::Eol
        } else if number == 0x01 {
            Ipv4Options::Nop
        } else if number == 0x83 {
            Ipv4Options::Lsrr
        } else if number == 0x89 {
            Ipv4Options::Ssrr
        } else if number == 0x07 {
            Ipv4Options::Rr
        } else if number == 0x44 {
            Ipv4Options::Timestamp
        } else {
            let mut text = String::from_str("Unknown Option: ");
            push_prefixed_hex(&mut text, number as u64);
            Ipv4Options::Unknown(text)
        }
    }

    /// What the option is called.
    pub fn description(&self) -> (text: &str)
        ensures
            text@ == self@.description(),
    {
        match self {
            Ipv4Options::Eol => "End of Options List",
            Ipv4Options::Nop => "No Operation",
            Ipv4Options::Lsrr => "Loose Source and Record Route",
            Ipv4Options::Ssrr => "Strict Source and Record Route",
            Ipv4Options::Rr => "Record Route",
            Ipv4Options::Timestamp => "Timestamp",
            Ipv4Options::Unknown(desc) => desc.as_str(),
        }
    }
}

impl Ipv4Header {
    /// The header that stands for an IPv4 header that could not be read.
    pub fn malformed(packet: &[u8]) -> (header: Ipv4Header)
        ensures
            header@ == malformed_ipv4_header(),
            header.next_header.wf(),
    {
        let header = Ipv4Header {
            version_ihl: 4,
            dscp: 0,
            ecn: 0,
            total_length: 0,
            identification: 0,
            options: Vec::new(),
            flags_fragment_offset: 0,
            time_to_live: 0,
            header_checksum: 0,
            source_address: String::new(),
            destination_address: String::new(),
            next_header: Ipv4Header::set_proto_descriptor(ExtendedType::Malformed),
            flags: Ipv4Flags { reserved: false, dontfrag: false, morefrag: false },
        };
        assert(option_views(header.options@) =~= Seq::empty());
        header
    }

    /// Decodes the flags field of an IPv4 header.
    pub fn set_flags(number: u8) -> (flags: Ipv4Flags)
        ensures
            flags == ipv4_flags_of(number),
    {
        Ipv4Flags {
            reserved: (number & 0b100) != 0,
            dontfrag: (number & 0b010) != 0,
            morefrag: (number & 0b001) != 0,
        }
    }

    /// The kinds of the options with the given first bytes, in order.
    pub fn set_options(numbers: &[u8]) -> (options: Vec<Ipv4Options>)
        ensures
            option_views(options@) == options_of(numbers@),
    {
        let mut options: Vec<Ipv4Options> = Vec::new();
        let mut i: usize = 0;
        while i < numbers.len()
            invariant
                i <= numbers@.len(),
                option_views(options@) == options_of(numbers@.subrange(0, i as int)),
            decreases numbers@.len() - i,
        {
            let ghost before = options_of(numbers@.subrange(0, i as int));
            options.push(Ipv4Options::from_number(numbers[i]));
            i = i + 1;
            assert(options_of(numbers@.subrange(0, i as int)) =~= before.push(
                option_of(numbers@[i - 1]),
            ));
        }
        options
    }
}

/// The byte that holds the copied flag, the class and the number of an
/// option.
pub open spec fn option_byte_of(parts: (u8, u8, u8)) -> int {
    parts.0 * 128 + parts.1 * 32 + parts.2
}

/// The first byte of each option, put together again from its three fields.
fn option_bytes(parts: &Vec<(u8, u8, u8)>) -> (bytes: Vec<u8>)
    requires
        forall|i: int|
            0 <= i < parts@.len() ==> #[trigger] option_byte_of(parts@[i]) <= u8::MAX
                && parts@[i].0 <= 1 && parts@[i].1 <= 3 && parts@[i].2 <= 31,
    ensures
        bytes@.len() == parts@.len(),
        forall|i: int| 0 <= i < parts@.len() ==> #[trigger] bytes@[i] == option_byte_of(parts@[i]),
{
    let mut bytes: Vec<u8> = Vec::new();
    let mut i: usize = 0;
    while i < parts.len()
        invariant
            i <= parts@.len(),
            bytes@.len() == i,
            forall|k: int|
                0 <= k < parts@.len() ==> #[trigger] option_byte_of(parts@[k]) <= u8::MAX
                    && parts@[k].0 <= 1 && parts@[k].1 <= 3 && parts@[k].2 <= 31,
            forall|k: int| 0 <= k < i ==> #[trigger] bytes@[k] == option_byte_of(parts@[k]),
        decreases parts@.len() - i,
    {
        let (copied, class, number) = parts[i];
        assert(option_byte_of(parts@[i as int]) <= u8::MAX);
        bytes.push(copied * 128 + class * 32 + number);
        i = i + 1;
    }
    bytes
}

/// The text of an address of four bytes.
fn address_text(address: (u8, u8, u8, u8)) -> (s: String)
    ensures
        s@ == dotted_quad(address.0, address.1, address.2, address.3),
{
    let mut s = String::new();
    push_dotted_quad(&mut s, address.0, address.1, address.2, address.3);
    s
}

impl Ipv4Packet {
    /// Decodes an IPv4 packet: its header, and the transport layer of its
    /// payload where the next-header code is TCP or UDP. `None` where the
    /// packet is shorter than an IPv4 header.
    pub fn new(packet: &[u8]) -> (r: Option<Ipv4Packet>)
        ensures
            match r {
                Some(layer) => ipv4_packet_of(packet@) == Some(layer@),
                None => ipv4_packet_of(packet@) is None,
            },
            r matches Some(layer) ==> layer@.wf(),
    {
        let fields = match ipv4_fields(packet) {
            None => {
                return None;
            },
            Some(fields) => fields,
        };
        let parts = ipv4_option_parts(packet);
        let numbers = option_bytes(&parts);
        assert(numbers@ =~= ipv4_option_bytes_in(ipv4_options_of(packet@))) by {
            assert forall|i: int| 0 <= i < parts@.len() implies #[trigger] numbers@[i]
                == ipv4_option_bytes_in(ipv4_options_of(packet@))[i] by {
                let first = ipv4_option_bytes_in(ipv4_options_of(packet@))[i];
                assert(parts@[i] == option_parts_of(first));
            }
        }
        let header = Ipv4Header {
            version_ihl: fields.version,
            dscp: fields.dscp,
            ecn: fields.ecn,
            total_length: fields.total_length,
            identification: fields.identification,
            options: Ipv4Header::set_options(numbers.as_slice()),
            flags_fragment_offset: fields.fragment_offset,
            time_to_live: fields.ttl,
            header_checksum: fields.checksum,
            source_address: address_text(fields.source),
            destination_address: address_text(fields.destination),
            next_header: set_next_header(fields.next_level_protocol),
            flags: Ipv4Header::set_flags(fields.flags),
        };
        let bytes = ipv4_payload(packet);
        let payload = match header.next_header.protocol_type {
            ExtendedType::Known(PROTOCOL_TCP) => match TcpPacket::new(bytes.as_slice()) {
                Some(tcp) => Some(Transport::Tcp(tcp)),
                None => None,
            },
            ExtendedType::Known(PROTOCOL_UDP) => match UdpPacket::new(bytes.as_slice()) {
                Some(udp) => Some(Transport::Udp(udp)),
                None => None,
            },
            ExtendedType::Known(_) | ExtendedType::Malformed => None,
        };
        Some(Ipv4Packet { header, payload })
    }

    /// The text of the field `options`: what each option is called, one on
    /// each line.
    fn options_text(&self) -> (text: String)
        ensures
            text@ == lines(descriptions(self@.header.options)),
    {
        let mut text = String::new();
        let mut i: usize = 0;
        let ghost all = descriptions(self@.header.options);
        while i < self.header.options.len()
            invariant
                i <= self.header.options@.len(),
                all == descriptions(self@.header.options),
                all.len() == self.header.options@.len(),
                text@ == lines(all.subrange(0, i as int)),
            decreases self.header.options@.len() - i,
        {
            let ghost before = all.subrange(0, i as int);
            let ghost now = all.subrange(0, i + 1);
            if i > 0 {
                text.append("\n");
                proof {
                    reveal_strlit("\n");
                }
            }
            text.append(self.header.options[i].description());
            proof {
                assert(now.drop_last() == before);
            }
            i = i + 1;
        }
        assert(all.subrange(0, i as int) == all);
        text
    }

    /// The fields of the layer, the field `protocol` first.
    pub fn get_summary(&self) -> (fields: Vec<(String, String)>)
        ensures
            fields_view(fields@) == self@.summary(),
    {
        let header = &self.header;
        let mut next = String::from_str("protocol : ");
        next.append(header.next_header.protocol_name.as_str());
        let mut flags = String::from_str("reserved : ");
        push_truth(&mut flags, header.flags.reserved);
        flags.append(", dont fragment : ");
        push_truth(&mut flags, header.flags.dontfrag);
        flags.append(",  more fragment : ");
        push_truth(&mut flags, header.flags.morefrag);
        let mut fields: Vec<(String, String)> = Vec::new();
        push_field(&mut fields, "protocol", String::from_str("ipv4"));
        push_field(&mut fields, "version", decimal_text(header.version_ihl as u64));
        push_field(&mut fields, "dscp", decimal_text(header.dscp as u64));
        push_field(&mut fields, "ecn", decimal_text(header.ecn as u64));
        push_field(&mut fields, "total_length", decimal_text(header.total_length as u64));
        push_field(&mut fields, "identification", decimal_text(header.identification as u64));
        push_field(
            &mut fields,
            "flags_fragment_offset",
            decimal_text(header.flags_fragment_offset as u64),
        );
        push_field(&mut fields, "time_to_live", decimal_text(header.time_to_live as u64));
        push_field(&mut fields, "header_checksum", decimal_text(header.header_checksum as u64));
        push_field(&mut fields, "source_address", header.source_address.clone());
        push_field(&mut fields, "destination_address", header.destination_address.clone());
        push_field(&mut fields, "next_header", next);
        push_field(&mut fields, "flags", flags);
        push_field(&mut fields, "options", self.options_text());
        fields
    }

    /// The transport layer that the packet carries, if any.
    pub fn get_next(&self) -> (next: Option<&Transport>)
        ensures
            match next {
                Some(transport) => self@.payload == Some(transport@),
                None => self@.payload is None,
            },
    {
        self.payload.as_ref()
    }

    /// The identity of the layer.
    pub fn protocol_type(&self) -> (tag: ProtocolType)
        ensures
            tag == ProtocolType::Ipv4,
    {
        ProtocolType::Ipv4
    }

    /// The source of the layer: the source address.
    pub fn source(&self) -> (s: String)
        ensures
            s@ == self@.header.source_address,
    {
        self.header.source_address.clone()
    }

    /// The destination of the layer: the destination address.
    pub fn destination(&self) -> (s: String)
        ensures
            s@ == self@.header.destination_address,
    {
        self.header.destination_address.clone()
    }

    /// The one-line description of the layer.
    pub fn info(&self) -> (s: String)
        ensures
            s@ == self@.info(),
    {
        let mut s = String::from_str("flags: MoreFrag: ");
        push_truth(&mut s, self.header.flags.morefrag);
        s.append(" DontFrag: ");
        push_truth(&mut s, self.header.flags.dontfrag);
        s.append(" Reserved: ");
        push_truth(&mut s, self.header.flags.reserved);
        s
    }
}

/// Every packet that decoding yields is well formed.
pub proof fn decoded_packet_is_well_formed(packet: Seq<u8>)
    requires
        packet.len() >= IPV4_HEADER_LEN,
    ensures
        ipv4_packet_of(packet) is Some,
        ipv4_packet_of(packet).unwrap().wf(),
{
    next_header_name_is_not_malformed(packet[9]);
}

} // verus!
