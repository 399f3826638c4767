//! Decoding of captured network frames.
//!
//! A frame is decoded into a chain of layers: the Ethernet header, an IPv4
//! packet, a TCP segment or a UDP datagram, and what the transport payload
//! holds. Decoding never fails: a frame too short for an Ethernet header is
//! kept as a malformed link layer, and a header that cannot be read further
//! in ends the chain. Each frame can be described in one line or layer by
//! layer.
//!
//! The headers are read by `pnet`; see [`wire`] for what is taken from it.
//! [`capture`] holds the buffer of captured frames and the decisions of a
//! capture session, [`capture_file`] splits a capture file into frames.

pub mod application;
pub mod bytes;
pub mod capture;
pub mod capture_file;
pub mod descriptor;
pub mod dns;
pub mod ethernet;
pub mod internet;
pub mod layer;
pub mod text;
pub mod transport;
pub mod wire;
