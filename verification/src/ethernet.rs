//! The link layer: Ethernet frames, where the decoding of every captured
//! frame starts.

use crate::descriptor::{
    known_descriptor, malformed_descriptor, malformed_name, unknown_name, ExtendedType,
    ProtocolDescriptor, ProtocolDescriptorView, ProtocolType, SetProtocolDescriptor,
};
use crate::internet::{ipv4_packet_of, Ipv4Packet, Ipv4PacketView};
use crate::layer::{get_innermost_info, Description, DescriptionView, Layer, LayerView};
use crate::text::{fields_view, push_field, truth, truth_text};
use crate::wire::{
    ethernet_fields, ethernet_fields_of, ethernet_payload, ethernet_payload_of, mac_text,
    mac_text_of, ETHERNET_HEADER_LEN, IPV4_HEADER_LEN, TCP_HEADER_LEN,
};
use vstd::prelude::*;
use vstd::string::StringExecFns;

verus! {

/// The ethertype of IPv4.
pub const ETHERTYPE_IPV4: u16 = 0x0800;

/// The ethertype of ARP.
pub const ETHERTYPE_ARP: u16 = 0x0806;

/// The ethertype of IPv6.
pub const ETHERTYPE_IPV6: u16 = 0x86DD;

/// The fields of an Ethernet header, or what stands for them where the frame
/// was too short to hold one.
#[derive(Clone, Debug)]
pub struct EthernetHeader {
    pub source_mac: String,
    pub destination_mac: String,
    pub ether_type: ProtocolDescriptor<ExtendedType<u16>>,
    pub payload: Vec<u8>,
    pub malformed: bool,
}

/// An Ethernet header as a mathematical value.
pub struct EthernetHeaderView {
    pub source_mac: Seq<char>,
    pub destination_mac: Seq<char>,
    pub ether_type: ProtocolDescriptorView<ExtendedType<u16>>,
    pub payload: Seq<u8>,
    pub malformed: bool,
}

impl View for EthernetHeader {
    type V = EthernetHeaderView;

    open spec fn view(&self) -> EthernetHeaderView {
        EthernetHeaderView {
            source_mac: self.source_mac@,
            destination_mac: self.destination_mac@,
            ether_type: self.ether_type@,
            payload: self.payload@,
            malformed: self.malformed,
        }
    }
}

/// A header of the link layer.
#[derive(Clone, Debug)]
pub enum LinkLayer {
    Ethernet(EthernetHeader),
    Unknown,
}

/// A captured frame: its number, the time of its capture, and the chain of
/// layers that its bytes decode to.
#[derive(Clone, Debug)]
pub struct EthernetFrame {
    pub id: i32,
    pub timestamp: String,
    pub header: EthernetHeader,
    pub payload: Option<Ipv4Packet>,
}

/// A captured frame as a mathematical value.
pub struct EthernetFrameView {
    pub id: i32,
    pub timestamp: Seq<char>,
    pub header: EthernetHeaderView,
    pub payload: Option<Ipv4PacketView>,
}

impl View for EthernetFrame {
    type V = EthernetFrameView;

    open spec fn view(&self) -> EthernetFrameView {
        EthernetFrameView {
            id: self.id,
            timestamp: self.timestamp@,
            header: self.header@,
            payload: match self.payload {
                Some(packet) => Some(packet@),
                None => None,
            },
        }
    }
}

/// The display name of an ethertype.
pub open spec fn ether_type_name(code: u16) -> Seq<char> {
    if code == ETHERTYPE_IPV4 {
        "IPv4"@
    } else if code == ETHERTYPE_ARP {
        "ARP"@
    } else if code == ETHERTYPE_IPV6 {
        "IPv6"@
    } else {
        unknown_name()
    }
}

/// The header that stands for the Ethernet header of a frame too short to
/// hold one: no addresses, no ethertype, and the whole frame as payload.
pub open spec fn malformed_ethernet_header(frame: Seq<u8>) -> EthernetHeaderView {
    EthernetHeaderView {
        source_mac: Seq::empty(),
        destination_mac: Seq::empty(),
        ether_type: malformed_descriptor(),
        payload: frame,
        malformed: true,
    }
}

/// The Ethernet header of a frame.
pub open spec fn ethernet_header_of(frame: Seq<u8>) -> EthernetHeaderView {
    if frame.len() >= ETHERNET_HEADER_LEN {
        let fields = ethernet_fields_of(frame);
        EthernetHeaderView {
            source_mac: mac_text_of(fields.source),
            destination_mac: mac_text_of(fields.destination),
            ether_type: known_descriptor(fields.ethertype, ether_type_name(fields.ethertype)),
            payload: ethernet_payload_of(frame),
            malformed: false,
        }
    } else {
        malformed_ethernet_header(frame)
    }
}

/// The internet layer that follows a header: the IPv4 packet that the
/// payload decodes to where the ethertype is that of IPv4, and none for
/// every other header.
pub open spec fn internet_of(header: EthernetHeaderView) -> Option<Ipv4PacketView> {
    if header.ether_type.protocol_type == ExtendedType::Known(ETHERTYPE_IPV4) {
        ipv4_packet_of(header.payload)
    } else {
        None
    }
}

/// The frame that the bytes `frame`, captured at `timestamp` as number `id`,
/// decode to.
pub open spec fn frame_of(id: i32, timestamp: Seq<char>, frame: Seq<u8>) -> EthernetFrameView {
    EthernetFrameView {
        id,
        timestamp,
        header: ethernet_header_of(frame),
        payload: internet_of(ethernet_header_of(frame)),
    }
}

impl EthernetFrameView {
    /// A decoded frame is marked malformed exactly where it has no
    /// ethertype, a malformed frame has no addresses, and a frame carries
    /// an internet layer only under the ethertype of IPv4.
    pub open spec fn wf(self) -> bool {
        &&& self.header.ether_type.wf()
        &&& self.header.malformed <==> self.header.ether_type.protocol_type is Malformed
        &&& self.header.malformed ==> self.header.source_mac.len() == 0
            && self.header.destination_mac.len() == 0 && self.payload is None
        &&& self.payload matches Some(internet) ==> internet.wf()
            && self.header.ether_type.protocol_type == ExtendedType::Known(ETHERTYPE_IPV4)
    }

    /// The one-line description of the layer.
    pub open spec fn info(self) -> Seq<char> {
        "next header "@ + self.header.ether_type.protocol_name
    }

    /// The fields of the layer.
    pub open spec fn summary(self) -> Seq<(Seq<char>, Seq<char>)> {
        seq![
            ("protocol"@, "ethernet"@),
            ("Source Mac"@, self.header.source_mac),
            ("Destination Mac"@, self.header.destination_mac),
            ("EtherType"@, self.header.ether_type.protocol_name),
            ("malformed"@, truth(self.header.malformed)),
        ]
    }

    /// The one-line description of the frame: the addresses of the innermost
    /// layer that has addresses, and the identity and description of the
    /// last layer.
    pub open spec fn short_description(self) -> DescriptionView {
        let link = LayerView::Ethernet(self);
        DescriptionView {
            id: self.id,
            timestamp: self.timestamp,
            protocol: link.innermost().protocol_type(),
            source: link.addressed().source(),
            destination: link.addressed().destination(),
            info: link.innermost().info(),
        }
    }

    /// The fields of each layer of the frame, the link layer first.
    pub open spec fn long_description(self) -> Seq<Seq<(Seq<char>, Seq<char>)>> {
        LayerView::Ethernet(self).summaries()
    }
}

/// The display name of an ethertype.
pub fn set_name(proto: &u16) -> (name: String)
    ensures
        name@ == ether_type_name(*proto),
{
    if *proto == ETHERTYPE_IPV4 {
        String::from_str("IPv4")
    } else if *proto == ETHERTYPE_ARP {
        String::from_str("ARP")
    } else if *proto == ETHERTYPE_IPV6 {
        String::from_str("IPv6")
    } else {
        String::from_str("Unknown")
    }
}

/// No ethertype is named `malformed`.
pub proof fn ether_type_name_is_not_malformed(code: u16)
    ensures
        ether_type_name(code) != malformed_name(),
{
    reveal_strlit("IPv4");
    reveal_strlit("ARP");
    reveal_strlit("IPv6");
    reveal_strlit("Unknown");
    reveal_strlit("malformed");
    assert(ether_type_name(code).len() != malformed_name().len());
}

impl SetProtocolDescriptor<u16> for EthernetHeader {
    open spec fn name_of(code: u16) -> Seq<char> {
        ether_type_name(code)
    }

    fn set_proto_descriptor(proto: ExtendedType<u16>) -> (descriptor: ProtocolDescriptor<
        ExtendedType<u16>,
    >) {
        let protocol_name = match &proto {
            ExtendedType::Known(ether_type) => set_name(ether_type),
            ExtendedType::Malformed => String::from_str("malformed"),
        };
        proof {
            if let ExtendedType::Known(code) = proto {
                ether_type_name_is_not_malformed(code);
            }
        }
        ProtocolDescriptor { protocol_name, protocol_type: proto }
    }
}

impl EthernetHeader {
    /// A header is well formed when its descriptor is, and when it is marked
    /// malformed exactly where it holds no ethertype.
    pub open spec fn wf(&self) -> bool {
        &&& self.ether_type.wf()
        &&& self.malformed <==> self.ether_type.protocol_type is Malformed
    }

    /// The header that stands for the Ethernet header of a frame too short
    /// to hold one.
    pub fn malformed(packet: &[u8]) -> (header: EthernetHeader)
        ensures
            header@ == malformed_ethernet_header(packet@),
            header.wf(),
    {
        EthernetHeader {
            source_mac: String::new(),
            destination_mac: String::new(),
            ether_type: EthernetHeader::set_proto_descriptor(ExtendedType::Malformed),
            payload: vstd::slice::slice_to_vec(packet),
            malformed: true,
        }
    }

    /// Reads the Ethernet header of a frame.
    pub fn parse(packet: &[u8]) -> (header: EthernetHeader)
        ensures
            header@ == ethernet_header_of(packet@),
            header.wf(),
    {
        match ethernet_fields(packet) {
            None => EthernetHeader::malformed(packet),
            Some(fields) => EthernetHeader {
                source_mac: mac_text(fields.source),
                destination_mac: mac_text(fields.destination),
                ether_type: EthernetHeader::set_proto_descriptor(
                    ExtendedType::Known(fields.ethertype),
                ),
                payload: ethernet_payload(packet),
                malformed: false,
            },
        }
    }
}

/// Decodes the payload of an Ethernet frame as an IPv4 packet.
pub fn parse_ipv4(payload: &[u8]) -> (r: Option<Ipv4Packet>)
    ensures
        match r {
            Some(layer) => ipv4_packet_of(payload@) == Some(layer@),
            None => ipv4_packet_of(payload@) is None,
        },
{
    Ipv4Packet::new(payload)
}

impl EthernetFrame {
    /// Decodes a captured frame. The frame that comes back always stands for
    /// the bytes: one too short for an Ethernet header is marked malformed
    /// and has no further layer.
    pub fn new(id: i32, timestamp: String, packet: &[u8]) -> (frame: EthernetFrame)
        ensures
            frame@ == frame_of(id, timestamp@, packet@),
            frame@.wf(),
    {
        proof {
            decoded_frame_is_well_formed(id, timestamp@, packet@);
        }
        let (header, payload) = EthernetFrame::decode(packet);
        EthernetFrame { id, timestamp, header, payload }
    }

    /// The link layer of a frame and the internet layer that it carries.
    fn decode(packet: &[u8]) -> (layers: (EthernetHeader, Option<Ipv4Packet>))
        ensures
            layers.0@ == ethernet_header_of(packet@),
            layers.0.wf(),
            match layers.1 {
                Some(internet) => internet_of(ethernet_header_of(packet@)) == Some(internet@),
                None => internet_of(ethernet_header_of(packet@)) is None,
            },
    {
        let header = EthernetHeader::parse(packet);
        let payload = match header.ether_type.protocol_type {
            ExtendedType::Known(ETHERTYPE_IPV4) => parse_ipv4(header.payload.as_slice()),
            _ => None,
        };
        (header, payload)
    }

    /// Replaces the layers of the frame by those that `packet` decodes to.
    pub fn deserialize(&mut self, packet: &[u8])
        ensures
            final(self)@ == frame_of(old(self).id, old(self).timestamp@, packet@),
            final(self)@.wf(),
    {
        proof {
            decoded_frame_is_well_formed(self.id, self.timestamp@, packet@);
        }
        let (header, payload) = EthernetFrame::decode(packet);
        self.header = header;
        self.payload = payload;
    }

    /// The fields of the layer, the field `protocol` first.
    pub fn get_summary(&self) -> (fields: Vec<(String, String)>)
        ensures
            fields_view(fields@) == self@.summary(),
    {
        let mut fields: Vec<(String, String)> = Vec::new();
        push_field(&mut fields, "protocol", String::from_str("ethernet"));
        push_field(&mut fields, "Source Mac", self.header.source_mac.clone());
        push_field(&mut fields, "Destination Mac", self.header.destination_mac.clone());
        push_field(&mut fields, "EtherType", self.header.ether_type.protocol_name.clone());
        push_field(&mut fields, "malformed", truth_text(self.header.malformed));
        fields
    }

    /// The internet layer that the frame carries, if any.
    pub fn get_next(&self) -> (next: Option<&Ipv4Packet>)
        ensures
            match next {
                Some(packet) => self@.payload == Some(packet@),
                None => self@.payload is None,
            },
    {
        self.payload.as_ref()
    }

    /// The identity of the layer.
    pub fn protocol_type(&self) -> (tag: ProtocolType)
        ensures
            tag == ProtocolType::Ethernet,
    {
        ProtocolType::Ethernet
    }

    /// The source of the layer: the source hardware address.
    pub fn source(&self) -> (s: String)
        ensures
            s@ == self@.header.source_mac,
    {
        self.header.source_mac.clone()
    }

    /// The destination of the layer: the destination hardware address.
    pub fn destination(&self) -> (s: String)
        ensures
            s@ == self@.header.destination_mac,
    {
        self.header.destination_mac.clone()
    }

    /// The one-line description of the layer.
    pub fn info(&self) -> (s: String)
        ensures
            s@ == self@.info(),
    {
        let mut s = String::from_str("next header ");
        s.append(self.header.ether_type.protocol_name.as_str());
        s
    }

    /// The one-line description of the frame.
    pub fn get_short(&self) -> (description: Description)
        ensures
            description@ == self@.short_description(),
    {
        let link = Layer::Ethernet(self);
        let (source, destination) = link.endpoints();
        let (protocol, info) = get_innermost_info(link);
        Description {
            id: self.id,
            timestamp: self.timestamp.clone(),
            protocol,
            source,
            destination,
            info,
        }
    }

    /// The fields of each layer of the frame, the link layer first.
    pub fn get_long(&self) -> (layers: Vec<Vec<(String, String)>>)
        ensures
            crate::layer::field_lists_view(layers@) == self@.long_description(),
    {
        let mut layers: Vec<Vec<(String, String)>> = Vec::new();
        Layer::Ethernet(self).collect_summaries(&mut layers);
        layers
    }
}

/// Every frame that decoding yields is well formed.
pub proof fn decoded_frame_is_well_formed(id: i32, timestamp: Seq<char>, frame: Seq<u8>)
    ensures
        frame_of(id, timestamp, frame).wf(),
{
    if frame.len() >= ETHERNET_HEADER_LEN {
        ether_type_name_is_not_malformed(ethernet_fields_of(frame).ethertype);
        let payload = ethernet_payload_of(frame);
        if payload.len() >= IPV4_HEADER_LEN {
            crate::internet::decoded_packet_is_well_formed(payload);
        }
    }
}

/// A frame shorter than an Ethernet header decodes to a single layer that
/// is marked malformed, has no addresses and keeps the whole frame as its
/// payload.
pub proof fn short_frame_is_malformed(id: i32, timestamp: Seq<char>, frame: Seq<u8>)
    requires
        frame.len() < ETHERNET_HEADER_LEN,
    ensures
        frame_of(id, timestamp, frame).header.malformed,
        frame_of(id, timestamp, frame).header.source_mac == Seq::<char>::empty(),
        frame_of(id, timestamp, frame).header.destination_mac == Seq::<char>::empty(),
        frame_of(id, timestamp, frame).header.ether_type.protocol_type is Malformed,
        frame_of(id, timestamp, frame).header.ether_type.protocol_name == malformed_name(),
        frame_of(id, timestamp, frame).header.payload == frame,
        LayerView::Ethernet(frame_of(id, timestamp, frame)).next() is None,
        LayerView::Ethernet(frame_of(id, timestamp, frame)).chain().len() == 1,
{
}

/// A frame of at least an Ethernet header is never marked malformed,
/// whatever follows the header.
pub proof fn long_frame_is_well_formed(id: i32, timestamp: Seq<char>, frame: Seq<u8>)
    requires
        frame.len() >= ETHERNET_HEADER_LEN,
    ensures
        !frame_of(id, timestamp, frame).header.malformed,
        frame_of(id, timestamp, frame).header.ether_type.protocol_type == ExtendedType::Known(
            ethernet_fields_of(frame).ethertype,
        ),
        frame_of(id, timestamp, frame).header.ether_type.protocol_name != malformed_name(),
{
    ether_type_name_is_not_malformed(ethernet_fields_of(frame).ethertype);
}

/// A frame with an ethertype other than that of IPv4 decodes to the link
/// layer alone, and the description of that layer names the ethertype.
pub proof fn other_ethertype_ends_chain(id: i32, timestamp: Seq<char>, frame: Seq<u8>)
    requires
        frame.len() >= ETHERNET_HEADER_LEN,
        ethernet_fields_of(frame).ethertype != ETHERTYPE_IPV4,
    ensures
        LayerView::Ethernet(frame_of(id, timestamp, frame)).chain() == seq![
            LayerView::Ethernet(frame_of(id, timestamp, frame)),
        ],
        frame_of(id, timestamp, frame).info() == "next header "@ + ether_type_name(
            ethernet_fields_of(frame).ethertype,
        ),
        frame_of(id, timestamp, frame).short_description().protocol == ProtocolType::Ethernet,
        frame_of(id, timestamp, frame).short_description().info == "next header "@
            + ether_type_name(ethernet_fields_of(frame).ethertype),
{
}

/// A frame that holds an Ethernet header with the ethertype of IPv4, an IPv4
/// header that announces TCP, and a TCP header decodes to four layers: link,
/// IPv4, TCP and application. Its one-line description names the
/// application layer.
pub proof fn tcp_over_ipv4_has_four_layers(id: i32, timestamp: Seq<char>, frame: Seq<u8>)
    requires
        frame.len() >= ETHERNET_HEADER_LEN,
        ethernet_fields_of(frame).ethertype == ETHERTYPE_IPV4,
        ethernet_payload_of(frame).len() >= IPV4_HEADER_LEN,
        ethernet_payload_of(frame)[9] == crate::internet::PROTOCOL_TCP,
        crate::wire::ipv4_payload_of(ethernet_payload_of(frame)).len() >= TCP_HEADER_LEN,
    ensures
        ({
            let link = LayerView::Ethernet(frame_of(id, timestamp, frame));
            let chain = link.chain();
            &&& chain.len() == 4
            &&& chain[0] is Ethernet
            &&& chain[1] is Ipv4
            &&& chain[2] is Tcp
            &&& chain[3] is Application
            &&& chain[3] == link.innermost()
            &&& frame_of(id, timestamp, frame).short_description().protocol
                == chain[3].protocol_type()
            &&& frame_of(id, timestamp, frame).short_description().info == chain[3].info()
        }),
{
    reveal_with_fuel(LayerView::chain, 5);
    reveal_with_fuel(LayerView::innermost, 5);
    let link = LayerView::Ethernet(frame_of(id, timestamp, frame));
    let internet = link.next().unwrap();
    let transport = internet.next().unwrap();
    let application = transport.next().unwrap();
}

} // verus!
