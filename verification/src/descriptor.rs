//! Protocol codes and their descriptors: a code that a header carries,
//! resolved to a display name, or the mark that the header could not be read.

use vstd::prelude::*;

verus! {

/// A protocol code read from a header, or the mark that no header could be
/// read. A code that no decoder knows is still `Known`.
#[derive(Clone, Copy, Debug, PartialEq, Eq, Structural)]
pub enum ExtendedType<T> {
    Known(T),
    Malformed,
}

/// A protocol code together with its display name.
#[derive(Clone, Debug)]
pub struct ProtocolDescriptor<T> {
    pub protocol_name: String,
    pub protocol_type: T,
}

/// A descriptor as a mathematical value.
pub struct ProtocolDescriptorView<T> {
    pub protocol_name: Seq<char>,
    pub protocol_type: T,
}

impl<T> View for ProtocolDescriptor<T> {
    type V = ProtocolDescriptorView<T>;

    open spec fn view(&self) -> ProtocolDescriptorView<T> {
        ProtocolDescriptorView {
            protocol_name: self.protocol_name@,
            protocol_type: self.protocol_type,
        }
    }
}

/// The identity of a decoded layer.
#[derive(Clone, Copy, Debug, PartialEq, Eq, Structural)]
pub enum ProtocolType {
    Ethernet,
    Ipv4,
    Ipv6,
    Tcp,
    Udp,
    Dns,
    Other,
    Malformed,
}

/// The name that every descriptor of an unreadable header carries.
pub open spec fn malformed_name() -> Seq<char> {
    "malformed"@
}

/// The name of codes that have no name of their own.
pub open spec fn unknown_name() -> Seq<char> {
    "Unknown"@
}

impl<T> ProtocolDescriptorView<ExtendedType<T>> {
    /// A descriptor is named `malformed` exactly when it holds no code.
    pub open spec fn wf(self) -> bool {
        self.protocol_name == malformed_name() <==> self.protocol_type is Malformed
    }
}

impl<T> ProtocolDescriptor<ExtendedType<T>> {
    /// A descriptor is named `malformed` exactly when it holds no code.
    pub open spec fn wf(&self) -> bool {
        self@.wf()
    }
}

/// The descriptor of a code that was read, with the code's display name.
pub open spec fn known_descriptor<T>(code: T, name: Seq<char>) -> ProtocolDescriptorView<
    ExtendedType<T>,
> {
    ProtocolDescriptorView { protocol_name: name, protocol_type: ExtendedType::Known(code) }
}

/// The descriptor of a header that could not be read.
pub open spec fn malformed_descriptor<T>() -> ProtocolDescriptorView<ExtendedType<T>> {
    ProtocolDescriptorView {
        protocol_name: malformed_name(),
        protocol_type: ExtendedType::Malformed,
    }
}

/// The header types that resolve a protocol code of type `T` to a
/// descriptor.
pub trait SetProtocolDescriptor<T> {
    /// The display name of a code; codes without a name of their own are
    /// `Unknown`.
    spec fn name_of(code: T) -> Seq<char>;

    /// The descriptor of `proto`: the code with its display name, or the
    /// descriptor named `malformed` where there is no code.
    fn set_proto_descriptor(proto: ExtendedType<T>) -> (descriptor: ProtocolDescriptor<
        ExtendedType<T>,
    >)
        ensures
            descriptor@ == match proto {
                ExtendedType::Known(code) => known_descriptor(code, Self::name_of(code)),
                ExtendedType::Malformed => malformed_descriptor(),
            },
            descriptor.wf(),
    ;
}

} // verus!
