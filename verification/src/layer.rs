//! What every decoded layer offers, and the walk along the chain of layers
//! of a frame.

use crate::application::{question_field_name, Application, ApplicationView};
use crate::descriptor::ProtocolType;
use crate::ethernet::{EthernetFrame, EthernetFrameView};
use crate::internet::{Ipv4Packet, Ipv4PacketView, Ipv6Header, Ipv6HeaderView};
use crate::text::{
    decimal, decimal_is_injective, decimal_value_of_decimal, field_names, fields_view,
};
use crate::transport::{
    TcpPacket, TcpPacketView, Transport, TransportView, UdpPacket, UdpPacketView,
};
use vstd::prelude::*;

verus! {

/// One layer of a decoded frame.
#[derive(Clone, Copy, Debug)]
pub enum Layer<'a> {
    Ethernet(&'a EthernetFrame),
    Ipv4(&'a Ipv4Packet),
    Ipv6(&'a Ipv6Header),
    Tcp(&'a TcpPacket),
    Udp(&'a UdpPacket),
    Application(&'a Application),
}

/// One layer of a decoded frame as a mathematical value.
pub enum LayerView {
    Ethernet(EthernetFrameView),
    Ipv4(Ipv4PacketView),
    Ipv6(Ipv6HeaderView),
    Tcp(TcpPacketView),
    Udp(UdpPacketView),
    Application(ApplicationView),
}

impl<'a> View for Layer<'a> {
    type V = LayerView;

    open spec fn view(&self) -> LayerView {
        match self {
            Layer::Ethernet(frame) => LayerView::Ethernet(frame@),
            Layer::Ipv4(packet) => LayerView::Ipv4(packet@),
            Layer::Ipv6(header) => LayerView::Ipv6(header@),
            Layer::Tcp(packet) => LayerView::Tcp(packet@),
            Layer::Udp(packet) => LayerView::Udp(packet@),
            Layer::Application(payload) => LayerView::Application(payload@),
        }
    }
}

/// The one-line description of a frame.
#[derive(Clone, Debug)]
pub struct Description {
    pub id: i32,
    pub timestamp: String,
    pub protocol: ProtocolType,
    pub source: String,
    pub destination: String,
    pub info: String,
}

/// The one-line description of a frame as a mathematical value.
pub struct DescriptionView {
    pub id: i32,
    pub timestamp: Seq<char>,
    pub protocol: ProtocolType,
    pub source: Seq<char>,
    pub destination: Seq<char>,
    pub info: Seq<char>,
}

impl View for Description {
    type V = DescriptionView;

    open spec fn view(&self) -> DescriptionView {
        DescriptionView {
            id: self.id,
            timestamp: self.timestamp@,
            protocol: self.protocol,
            source: self.source@,
            destination: self.destination@,
            info: self.info@,
        }
    }
}

/// The field lists of several layers as a mathematical value.
pub open spec fn field_lists_view(layers: Seq<Vec<(String, String)>>) -> Seq<
    Seq<(Seq<char>, Seq<char>)>,
> {
    Seq::new(layers.len(), |i: int| fields_view(layers[i]@))
}

/// The layer that a transport layer is.
pub open spec fn transport_layer(transport: TransportView) -> LayerView {
    match transport {
        TransportView::Tcp(packet) => LayerView::Tcp(packet),
        TransportView::Udp(packet) => LayerView::Udp(packet),
    }
}

impl LayerView {
    /// The layer that this layer carries, if any.
    pub open spec fn next(self) -> Option<LayerView> {
        match self {
            LayerView::Ethernet(frame) => match frame.payload {
                Some(packet) => Some(LayerView::Ipv4(packet)),
                None => None,
            },
            LayerView::Ipv4(packet) => match packet.payload {
                Some(transport) => Some(transport_layer(transport)),
                None => None,
            },
            LayerView::Ipv6(_) => None,
            LayerView::Tcp(packet) => Some(LayerView::Application(packet.payload)),
            LayerView::Udp(packet) => Some(LayerView::Application(packet.payload)),
            LayerView::Application(_) => None,
        }
    }

    /// Number of layers from this one to the end of the chain. It is four
    /// at most.
    pub open spec fn depth(self) -> nat {
        match self {
            LayerView::Ethernet(frame) => match frame.payload {
                Some(packet) => if packet.payload is Some {
                    4
                } else {
                    2
                },
                None => 1,
            },
            LayerView::Ipv4(packet) => if packet.payload is Some {
                3
            } else {
                1
            },
            LayerView::Ipv6(_) => 1,
            LayerView::Tcp(_) => 2,
            LayerView::Udp(_) => 2,
            LayerView::Application(_) => 1,
        }
    }

    /// The identity of the layer.
    pub open spec fn protocol_type(self) -> ProtocolType {
        match self {
            LayerView::Ethernet(_) => ProtocolType::Ethernet,
            LayerView::Ipv4(_) => ProtocolType::Ipv4,
            LayerView::Ipv6(_) => ProtocolType::Ipv6,
            LayerView::Tcp(_) => ProtocolType::Tcp,
            LayerView::Udp(_) => ProtocolType::Udp,
            LayerView::Application(payload) => payload.protocol_type(),
        }
    }

    /// Whether the layer has addresses. The application layer has none.
    pub open spec fn has_endpoints(self) -> bool {
        !(self is Application)
    }

    /// The source of the layer: a hardware address, an internet address or
    /// a port; empty for the application layer.
    pub open spec fn source(self) -> Seq<char> {
        match self {
            LayerView::Ethernet(frame) => frame.header.source_mac,
            LayerView::Ipv4(packet) => packet.header.source_address,
            LayerView::Ipv6(header) => header.source,
            LayerView::Tcp(packet) => decimal(packet.header.source_port as nat),
            LayerView::Udp(packet) => decimal(packet.header.source_port as nat),
            LayerView::Application(_) => Seq::empty(),
        }
    }

    /// The destination of the layer, in the form of its source.
    pub open spec fn destination(self) -> Seq<char> {
        match self {
            LayerView::Ethernet(frame) => frame.header.destination_mac,
            LayerView::Ipv4(packet) => packet.header.destination_address,
            LayerView::Ipv6(header) => header.destination,
            LayerView::Tcp(packet) => decimal(packet.header.destination_port as nat),
            LayerView::Udp(packet) => decimal(packet.header.destination_port as nat),
            LayerView::Application(_) => Seq::empty(),
        }
    }

    /// The one-line description of the layer.
    pub open spec fn info(self) -> Seq<char> {
        match self {
            LayerView::Ethernet(frame) => frame.info(),
            LayerView::Ipv4(packet) => packet.info(),
            LayerView::Ipv6(header) => header.info(),
            LayerView::Tcp(packet) => packet.info(),
            LayerView::Udp(packet) => packet.info(),
            LayerView::Application(payload) => payload.info(),
        }
    }

    /// The fields of the layer.
    pub open spec fn summary(self) -> Seq<(Seq<char>, Seq<char>)> {
        match self {
            LayerView::Ethernet(frame) => frame.summary(),
            LayerView::Ipv4(packet) => packet.summary(),
            LayerView::Ipv6(header) => header.summary(),
            LayerView::Tcp(packet) => packet.summary(),
            LayerView::Udp(packet) => packet.summary(),
            LayerView::Application(payload) => payload.summary(),
        }
    }

    /// The last layer of the chain that starts here.
    pub open spec fn innermost(self) -> LayerView
        decreases self.depth(),
    {
        match self.next() {
            Some(next) => next.innermost(),
            None => self,
        }
    }

    /// The innermost layer with addresses of the chain that starts here;
    /// this layer where no later one has any.
    pub open spec fn addressed(self) -> LayerView
        decreases self.depth(),
    {
        match self.next() {
            Some(next) => if next.has_endpoints() {
                next.addressed()
            } else {
                self
            },
            None => self,
        }
    }

    /// The layers of the chain that starts here, this one first.
    pub open spec fn chain(self) -> Seq<LayerView>
        decreases self.depth(),
    {
        match self.next() {
            Some(next) => seq![self] + next.chain(),
            None => seq![self],
        }
    }

    /// The fields of each layer of the chain that starts here.
    pub open spec fn summaries(self) -> Seq<Seq<(Seq<char>, Seq<char>)>>
        decreases self.depth(),
    {
        match self.next() {
            Some(next) => seq![self.summary()] + next.summaries(),
            None => seq![self.summary()],
        }
    }
}

impl<'a> Layer<'a> {
    /// The fields of the layer, the field `protocol` first.
    pub fn get_summary(&self) -> (fields: Vec<(String, String)>)
        ensures
            fields_view(fields@) == self@.summary(),
    {
        match self {
            Layer::Ethernet(frame) => frame.get_summary(),
            Layer::Ipv4(packet) => packet.get_summary(),
            Layer::Ipv6(header) => header.get_summary(),
            Layer::Tcp(packet) => packet.get_summary(),
            Layer::Udp(packet) => packet.get_summary(),
            Layer::Application(payload) => payload.get_summary(),
        }
    }

    /// The layer that this layer carries; `None` at the end of the chain.
    pub fn get_next(&self) -> (next: Option<Layer<'a>>)
        ensures
            match next {
                Some(layer) => self@.next() == Some(layer@),
                None => self@.next() is None,
            },
    {
        match self {
            Layer::Ethernet(frame) => match frame.get_next() {
                Some(packet) => Some(Layer::Ipv4(packet)),
                None => None,
            },
            Layer::Ipv4(packet) => match packet.get_next() {
                Some(Transport::Tcp(tcp)) => Some(Layer::Tcp(tcp)),
                Some(Transport::Udp(udp)) => Some(Layer::Udp(udp)),
                None => None,
            },
            Layer::Ipv6(_) => None,
            Layer::Tcp(packet) => Some(Layer::Application(packet.get_next())),
            Layer::Udp(packet) => Some(Layer::Application(packet.get_next())),
            Layer::Application(_) => None,
        }
    }

    /// The identity of the layer.
    pub fn protocol_type(&self) -> (tag: ProtocolType)
        ensures
            tag == self@.protocol_type(),
    {
        match self {
            Layer::Ethernet(frame) => frame.protocol_type(),
            Layer::Ipv4(packet) => packet.protocol_type(),
            Layer::Ipv6(header) => header.protocol_type(),
            Layer::Tcp(packet) => packet.protocol(),
            Layer::Udp(packet) => packet.protocol(),
            Layer::Application(payload) => payload.protocol_type(),
        }
    }

    /// The source of the layer.
    pub fn source(&self) -> (s: String)
        ensures
            s@ == self@.source(),
    {
        match self {
            Layer::Ethernet(frame) => frame.source(),
            Layer::Ipv4(packet) => packet.source(),
            Layer::Ipv6(header) => header.source(),
            Layer::Tcp(packet) => packet.source(),
            Layer::Udp(packet) => packet.source(),
            Layer::Application(payload) => payload.source(),
        }
    }

    /// The destination of the layer.
    pub fn destination(&self) -> (s: String)
        ensures
            s@ == self@.destination(),
    {
        match self {
            Layer::Ethernet(frame) => frame.destination(),
            Layer::Ipv4(packet) => packet.destination(),
            Layer::Ipv6(header) => header.destination(),
            Layer::Tcp(packet) => packet.destination(),
            Layer::Udp(packet) => packet.destination(),
            Layer::Application(payload) => payload.destination(),
        }
    }

    /// The one-line description of the layer.
    pub fn info(&self) -> (s: String)
        ensures
            s@ == self@.info(),
    {
        match self {
            Layer::Ethernet(frame) => frame.info(),
            Layer::Ipv4(packet) => packet.info(),
            Layer::Ipv6(header) => header.info(),
            Layer::Tcp(packet) => packet.info(),
            Layer::Udp(packet) => packet.info(),
            Layer::Application(payload) => payload.info(),
        }
    }

    /// Whether the layer has addresses.
    pub fn has_endpoints(&self) -> (b: bool)
        ensures
            b == self@.has_endpoints(),
    {
        match self {
            Layer::Application(_) => false,
            _ => true,
        }
    }

    /// The source and the destination of the innermost layer with addresses
    /// of the chain that starts here.
    pub fn endpoints(&self) -> (pair: (String, String))
        ensures
            pair.0@ == self@.addressed().source(),
            pair.1@ == self@.addressed().destination(),
        decreases self@.depth(),
    {
        match self.get_next() {
            Some(next) => {
                if next.has_endpoints() {
                    next.endpoints()
                } else {
                    (self.source(), self.destination())
                }
            },
            None => (self.source(), self.destination()),
        }
    }

    /// Appends the fields of each layer of the chain that starts here to
    /// `layers`.
    pub fn collect_summaries(&self, layers: &mut Vec<Vec<(String, String)>>)
        ensures
            field_lists_view(final(layers)@) == field_lists_view(old(layers)@) + self@.summaries(),
        decreases self@.depth(),
    {
        layers.push(self.get_summary());
        match self.get_next() {
            Some(next) => {
                next.collect_summaries(layers);
            },
            None => {},
        }
    }
}

/// The identity and the one-line description of the last layer of the chain
/// that starts at `layer`.
pub fn get_innermost_info(layer: Layer<'_>) -> (r: (ProtocolType, String))
    ensures
        r.0 == layer@.innermost().protocol_type(),
        r.1@ == layer@.innermost().info(),
    decreases layer@.depth(),
{
    match layer.get_next() {
        Some(next) => get_innermost_info(next),
        None => (layer.protocol_type(), layer.info()),
    }
}

/// A chain has as many layers as its first layer is deep, four at most, and
/// ends in its innermost layer.
pub proof fn chain_is_bounded(layer: LayerView)
    ensures
        layer.chain().len() == layer.depth(),
        1 <= layer.depth() <= 4,
        layer.chain()[0] == layer,
        layer.chain().last() == layer.innermost(),
        layer.innermost().next() is None,
        layer.summaries().len() == layer.depth(),
    decreases layer.depth(),
{
    match layer.next() {
        Some(next) => {
            chain_is_bounded(next);
        },
        None => {},
    }
}

/// The fields of every layer start with the field `protocol`.
pub proof fn summary_names_protocol(layer: LayerView)
    ensures
        layer.summary().len() >= 1,
        layer.summary()[0].0 == "protocol"@,
{
}

/// The fields of the layers of a chain are the fields of each layer, in the
/// order of the chain.
pub proof fn summaries_follow_chain(layer: LayerView, i: int)
    requires
        0 <= i < layer.depth(),
    ensures
        layer.summaries().len() == layer.chain().len(),
        layer.summaries()[i] == layer.chain()[i].summary(),
    decreases layer.depth(),
{
    chain_is_bounded(layer);
    match layer.next() {
        Some(next) => {
            chain_is_bounded(next);
            if i > 0 {
                summaries_follow_chain(next, i - 1);
            }
        },
        None => {},
    }
}

/// The application layer ends every chain that it is part of, and it alone
/// has no addresses: the addresses of a description are those of the last
/// layer before it.
pub proof fn addresses_come_from_last_header(layer: LayerView)
    requires
        layer.has_endpoints(),
    ensures
        layer.addressed().has_endpoints(),
        layer.innermost().has_endpoints() ==> layer.addressed() == layer.innermost(),
        !layer.innermost().has_endpoints() ==> layer.addressed().next() == Some(
            layer.innermost(),
        ),
    decreases layer.depth(),
{
    match layer.next() {
        Some(next) => {
            if next.has_endpoints() {
                addresses_come_from_last_header(next);
            }
        },
        None => {},
    }
}

/// The length and the first two characters of a name. They tell the names
/// of the fields of each layer apart.
pub open spec fn name_mark(name: Seq<char>) -> (nat, char, char) {
    (name.len(), name[0], name[1])
}

/// The name of the field of each question of a DNS message differs from the
/// name of the field of every other question.
proof fn question_names_are_distinct(i: int, j: int)
    requires
        0 <= i < j,
    ensures
        question_field_name(i) != question_field_name(j),
{
    reveal_strlit("question");
    reveal_strlit("question ");
    let head = "question "@;
    let a = decimal((i + 1) as nat);
    let b = decimal((j + 1) as nat);
    decimal_value_of_decimal((j + 1) as nat);
    decimal_is_injective((i + 1) as nat, (j + 1) as nat);
    assert((head + b).len() == 9 + b.len());
    if i > 0 && head + a == head + b {
        assert((head + a).subrange(9, (head + a).len() as int) =~= a);
        assert((head + b).subrange(9, (head + b).len() as int) =~= b);
    }
}

/// The length and the first two characters of the name of the field of a
/// question.
proof fn question_name_mark(i: int)
    requires
        0 <= i,
    ensures
        name_mark(question_field_name(i)).0 == 8 || name_mark(question_field_name(i)).0 >= 10,
        name_mark(question_field_name(i)).1 == 'q',
        name_mark(question_field_name(i)).2 == 'u',
{
    reveal_strlit("question");
    reveal_strlit("question ");
    let head = "question "@;
    let a = decimal((i + 1) as nat);
    decimal_value_of_decimal((i + 1) as nat);
}

/// No two fields of a layer have the same name.
pub proof fn summary_names_are_distinct(layer: LayerView)
    ensures
        field_names(layer.summary()).no_duplicates(),
{
    let names = field_names(layer.summary());
    reveal_strlit("protocol");
    match layer {
        LayerView::Ethernet(_) => {
            reveal_strlit("Source Mac");
            reveal_strlit("Destination Mac");
            reveal_strlit("EtherType");
            reveal_strlit("malformed");
        },
        LayerView::Ipv4(_) => {
            reveal_strlit("version");
            reveal_strlit("dscp");
            reveal_strlit("ecn");
            reveal_strlit("total_length");
            reveal_strlit("identification");
            reveal_strlit("flags_fragment_offset");
            reveal_strlit("time_to_live");
            reveal_strlit("header_checksum");
            reveal_strlit("source_address");
            reveal_strlit("destination_address");
            reveal_strlit("next_header");
            reveal_strlit("flags");
            reveal_strlit("options");
        },
        LayerView::Ipv6(_) => {
            reveal_strlit("version");
            reveal_strlit("traffic_class");
            reveal_strlit("flow_label");
            reveal_strlit("payload_length");
            reveal_strlit("hop_limit");
            reveal_strlit("source");
            reveal_strlit("destination");
        },
        LayerView::Tcp(_) => {
            reveal_strlit("source_port");
            reveal_strlit("destination_port");
            reveal_strlit("acknowledgment_number");
            reveal_strlit("data_offset_reserved_flags");
            reveal_strlit("window_size");
            reveal_strlit("checksum");
            reveal_strlit("urgent_pointer");
            reveal_strlit("flags");
        },
        LayerView::Udp(_) => {
            reveal_strlit("source_port");
            reveal_strlit("destination_port");
            reveal_strlit("length");
            reveal_strlit("checksum");
        },
        LayerView::Application(ApplicationView::Other(_)) => {
            reveal_strlit("length");
        },
        LayerView::Application(ApplicationView::Dns(message)) => {
            reveal_strlit("id");
            reveal_strlit("response");
            reveal_strlit("questions");
            reveal_strlit("answers");
            reveal_strlit("authorities");
            reveal_strlit("additionals");
            assert forall|i: int, j: int|
                0 <= i < names.len() && 0 <= j < names.len() && i != j implies names[i]
                != names[j] by {
                if i >= 7 {
                    question_name_mark(i - 7);
                }
                if j >= 7 {
                    question_name_mark(j - 7);
                }
                if i >= 7 && j >= 7 {
                    if i < j {
                        question_names_are_distinct(i - 7, j - 7);
                    } else {
                        question_names_are_distinct(j - 7, i - 7);
                    }
                } else {
                    assert(name_mark(names[i]) != name_mark(names[j]));
                }
            }
        },
    }
    assert forall|i: int, j: int|
        0 <= i < names.len() && 0 <= j < names.len() && i != j implies names[i] != names[j] by {
        if !(layer matches LayerView::Application(ApplicationView::Dns(_))) {
            assert(name_mark(names[i]) != name_mark(names[j]));
        }
    }
}

} // verus!
