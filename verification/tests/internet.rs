use packet_decode::descriptor::{ExtendedType, ProtocolType, SetProtocolDescriptor};
use packet_decode::internet::{
    protocol_to_string, set_next_header, ExtendedNextHeader, Ipv4Header, Ipv4Options, Ipv4Packet,
    Ipv6Header,
};
use packet_decode::layer::Layer;
use packet_decode::transport::Transport;

fn ipv4_header(ihl: u8, total: u16, protocol: u8) -> Vec<u8> {
    vec![
        0x40 | ihl,
        0x11,
        (total >> 8) as u8,
        total as u8,
        0x01,
        0x02,
        0x41,
        0x01,
        0x40,
        protocol,
        0xb6,
        0x4e,
        192,
        168,
        0,
        1,
        10,
        0,
        200,
        255,
    ]
}

fn field_pairs(fields: &[(String, String)]) -> Vec<(&str, &str)> {
    fields.iter().map(|(name, value)| (name.as_str(), value.as_str())).collect()
}

fn next_byte(state: &mut u32) -> u8 {
    *state = state.wrapping_mul(1664525).wrapping_add(1013904223);
    (*state >> 24) as u8
}

fn option_names(options: &[Ipv4Options]) -> Vec<String> {
    options.iter().map(|o| o.description().to_string()).collect()
}

/// The first byte of each option that a walk over an option area meets.
fn walk_options(area: &[u8]) -> Vec<u8> {
    let mut numbers = Vec::new();
    let mut rest = area;
    while !rest.is_empty() {
        let number = rest[0] % 32;
        let size = if number == 0 || number == 1 {
            1
        } else if rest.len() >= 2 && rest[1] >= 2 {
            rest[1] as usize
        } else {
            2
        };
        numbers.push(rest[0]);
        rest = &rest[size.min(rest.len())..];
    }
    numbers
}

fn expected_description(number: u8) -> String {
    match number {
        0x00 => "End of Options List".to_string(),
        0x01 => "No Operation".to_string(),
        0x83 => "Loose Source and Record Route".to_string(),
        0x89 => "Strict Source and Record Route".to_string(),
        0x07 => "Record Route".to_string(),
        0x44 => "Timestamp".to_string(),
        n => format!("Unknown Option: {:#X}", n),
    }
}

#[test]
fn ipv4_packets_shorter_than_a_header_are_none() {
    for len in 0..20usize {
        let bytes = vec![0x45u8; len];
        assert!(Ipv4Packet::new(&bytes).is_none());
    }
    assert!(Ipv4Packet::new(&[0x45u8; 20]).is_some());
}

#[test]
fn ipv4_header_fields() {
    let mut bytes = ipv4_header(5, 24, 99);
    bytes.extend_from_slice(&[1, 2, 3, 4]);
    let packet = Ipv4Packet::new(&bytes).unwrap();
    let header = &packet.header;
    assert_eq!(header.version_ihl, 4);
    assert_eq!(header.dscp, 4);
    assert_eq!(header.ecn, 1);
    assert_eq!(header.total_length, 24);
    assert_eq!(header.identification, 0x0102);
    assert_eq!(header.flags_fragment_offset, 0x0101);
    assert!(!header.flags.reserved);
    assert!(header.flags.dontfrag);
    assert!(!header.flags.morefrag);
    assert_eq!(header.time_to_live, 64);
    assert_eq!(header.header_checksum, 0xb64e);
    assert_eq!(header.source_address, "192.168.0.1");
    assert_eq!(header.destination_address, "10.0.200.255");
    assert_eq!(header.next_header.protocol_type, ExtendedType::Known(99));
    assert_eq!(header.next_header.protocol_name, "Unknown");
    assert!(header.options.is_empty());
    assert!(packet.payload.is_none());
    assert_eq!(packet.source(), "192.168.0.1");
    assert_eq!(packet.destination(), "10.0.200.255");
    assert_eq!(packet.protocol_type(), ProtocolType::Ipv4);
    assert_eq!(packet.info(), "flags: MoreFrag: false DontFrag: true Reserved: false");
}

#[test]
fn identification_is_read_from_its_own_field() {
    let mut bytes = ipv4_header(5, 20, 0);
    bytes[2] = 0x00;
    bytes[3] = 0x14;
    bytes[4] = 0xab;
    bytes[5] = 0xcd;
    let packet = Ipv4Packet::new(&bytes).unwrap();
    assert_eq!(packet.header.total_length, 20);
    assert_eq!(packet.header.identification, 0xabcd);
}

#[test]
fn ipv4_flag_bits() {
    for n in 0..=255u8 {
        let flags = Ipv4Header::set_flags(n);
        assert_eq!(flags.reserved, n & 4 != 0);
        assert_eq!(flags.dontfrag, n & 2 != 0);
        assert_eq!(flags.morefrag, n & 1 != 0);
    }
}

#[test]
fn ipv4_flags_are_the_top_three_bits_of_byte_six() {
    for top in 0..8u8 {
        let mut bytes = ipv4_header(5, 20, 0);
        bytes[6] = (top << 5) | 0x1f;
        bytes[7] = 0xff;
        let packet = Ipv4Packet::new(&bytes).unwrap();
        assert_eq!(packet.header.flags, Ipv4Header::set_flags(top));
        assert_eq!(packet.header.flags_fragment_offset, 0x1fff);
    }
}

#[test]
fn unknown_option_code_has_a_text() {
    match Ipv4Options::from_number(0x05) {
        Ipv4Options::Unknown(text) => assert_eq!(text, "Unknown Option: 0x5"),
        other => panic!("unexpected option {:?}", other),
    }
    match Ipv4Options::from_number(0xff) {
        Ipv4Options::Unknown(text) => assert_eq!(text, "Unknown Option: 0xFF"),
        other => panic!("unexpected option {:?}", other),
    }
    match Ipv4Options::from_number(0x1a) {
        Ipv4Options::Unknown(text) => assert_eq!(text, "Unknown Option: 0x1A"),
        other => panic!("unexpected option {:?}", other),
    }
}

#[test]
fn option_kinds_by_number() {
    let options = Ipv4Header::set_options(&[0x00, 0x01, 0x83, 0x89, 0x07, 0x44, 0x05]);
    assert_eq!(
        option_names(&options),
        vec![
            "End of Options List",
            "No Operation",
            "Loose Source and Record Route",
            "Strict Source and Record Route",
            "Record Route",
            "Timestamp",
            "Unknown Option: 0x5",
        ]
    );
    assert!(matches!(options[0], Ipv4Options::Eol));
    assert!(matches!(options[1], Ipv4Options::Nop));
    assert!(matches!(options[2], Ipv4Options::Lsrr));
    assert!(matches!(options[3], Ipv4Options::Ssrr));
    assert!(matches!(options[4], Ipv4Options::Rr));
    assert!(matches!(options[5], Ipv4Options::Timestamp));
    assert!(Ipv4Header::set_options(&[]).is_empty());
}

#[test]
fn every_option_number_has_a_kind() {
    for n in 0..=255u8 {
        let text = Ipv4Options::from_number(n).description().to_string();
        let expected = match n {
            0x00 => "End of Options List".to_string(),
            0x01 => "No Operation".to_string(),
            0x83 => "Loose Source and Record Route".to_string(),
            0x89 => "Strict Source and Record Route".to_string(),
            0x07 => "Record Route".to_string(),
            0x44 => "Timestamp".to_string(),
            n => format!("Unknown Option: {:#X}", n),
        };
        assert_eq!(text, expected);
    }
}

#[test]
fn options_of_a_packet() {
    let mut bytes = ipv4_header(7, 28, 0);
    bytes.extend_from_slice(&[0x01, 0x07, 0x04, 0xaa, 0xbb, 0x83, 0x03, 0x10]);
    let packet = Ipv4Packet::new(&bytes).unwrap();
    assert_eq!(
        option_names(&packet.header.options),
        vec!["No Operation", "Record Route", "Loose Source and Record Route"]
    );
    let fields = packet.get_summary();
    assert_eq!(fields[13].0, "options");
    assert_eq!(fields[13].1, "No Operation\nRecord Route\nLoose Source and Record Route");
}

#[test]
fn loose_source_route_is_told_by_the_whole_option_byte() {
    let bytes = [
        0x46, 0, 0, 24, 0, 0, 0, 0, 64, 1, 0, 0, 10, 0, 0, 1, 10, 0, 0, 2, 0x83, 0x03, 0x04, 0x00,
    ];
    let packet = Ipv4Packet::new(&bytes).unwrap();
    assert_eq!(packet.header.options.len(), 2);
    assert!(matches!(packet.header.options[0], Ipv4Options::Lsrr));
    assert!(matches!(packet.header.options[1], Ipv4Options::Eol));
}

#[test]
fn options_with_copied_flag_and_class() {
    let mut bytes = ipv4_header(8, 32, 0);
    bytes.extend_from_slice(&[0x89, 0x03, 0x01, 0x44, 0x04, 0, 0, 0x85, 0x02, 0x80, 0x81, 0x03]);
    let packet = Ipv4Packet::new(&bytes).unwrap();
    assert_eq!(
        option_names(&packet.header.options),
        vec![
            "Strict Source and Record Route",
            "Timestamp",
            "Unknown Option: 0x85",
            "Unknown Option: 0x80",
            "Unknown Option: 0x81",
            "Unknown Option: 0x3",
        ]
    );
}

#[test]
fn option_walk_goes_on_after_end_of_list_and_short_lengths() {
    let mut bytes = ipv4_header(8, 32, 0);
    bytes.extend_from_slice(&[0x00, 0x07, 0x00, 0x07, 0x01, 0x01, 0x00, 0x00, 0x07, 0x09, 1, 2]);
    let packet = Ipv4Packet::new(&bytes).unwrap();
    assert_eq!(
        option_names(&packet.header.options),
        vec![
            "End of Options List",
            "Record Route",
            "Record Route",
            "No Operation",
            "End of Options List",
            "End of Options List",
            "Record Route",
        ]
    );
}

#[test]
fn option_area_ends_with_the_packet() {
    let mut bytes = ipv4_header(15, 60, 0);
    bytes.extend_from_slice(&[0x01, 0x07]);
    let packet = Ipv4Packet::new(&bytes).unwrap();
    assert_eq!(option_names(&packet.header.options), vec!["No Operation", "Record Route"]);
    assert!(packet.payload.is_none());
}

#[test]
fn header_length_below_five_words_has_no_options() {
    for ihl in 0..5u8 {
        let mut bytes = ipv4_header(ihl, 40, 17);
        bytes.extend_from_slice(&[0, 53, 0, 54, 0, 9, 0, 0, 7]);
        let packet = Ipv4Packet::new(&bytes).unwrap();
        assert!(packet.header.options.is_empty());
        match &packet.payload {
            Some(Transport::Udp(udp)) => {
                assert_eq!(udp.header.source_port, 53);
                assert_eq!(udp.header.destination_port, 54);
            },
            other => panic!("unexpected payload {:?}", other),
        }
    }
}

#[test]
fn option_walk_matches_a_direct_walk_over_the_bytes() {
    let mut state = 7u32;
    for round in 0..400usize {
        let ihl = (next_byte(&mut state) % 16) as u8;
        let extra = (next_byte(&mut state) % 48) as usize;
        let mut bytes = ipv4_header(ihl, 20, 0);
        for _ in 0..extra {
            let b = next_byte(&mut state);
            bytes.push(if round % 2 == 0 { b } else { b % 12 });
        }
        let announced = (ihl as usize * 4).saturating_sub(20);
        let area = &bytes[20..(20 + announced).min(bytes.len())];
        let expected: Vec<String> =
            walk_options(area).into_iter().map(expected_description).collect();
        let packet = Ipv4Packet::new(&bytes).unwrap();
        assert_eq!(option_names(&packet.header.options), expected);
    }
}

#[test]
fn payload_is_bounded_by_the_length_fields() {
    let mut bytes = ipv4_header(5, 20 + 8 + 3, 17);
    bytes.extend_from_slice(&[0, 53, 0x30, 0x39, 0, 11, 0, 0, b'a', b'b', b'c', b'x', b'y']);
    let packet = Ipv4Packet::new(&bytes).unwrap();
    match &packet.payload {
        Some(Transport::Udp(udp)) => {
            assert_eq!(udp.header.destination_port, 12345);
            match &udp.payload {
                packet_decode::application::Application::Other(data) => {
                    assert_eq!(data, &vec![b'a', b'b', b'c'])
                },
                other => panic!("unexpected payload {:?}", other),
            }
        },
        other => panic!("unexpected payload {:?}", other),
    }
}

#[test]
fn total_length_below_the_header_length_leaves_no_payload() {
    let mut bytes = ipv4_header(5, 10, 17);
    bytes.extend_from_slice(&[0, 53, 0, 54, 0, 8, 0, 0]);
    let packet = Ipv4Packet::new(&bytes).unwrap();
    assert!(packet.payload.is_none());
}

#[test]
fn payload_starts_after_the_options() {
    let mut bytes = ipv4_header(6, 24 + 8, 17);
    bytes.extend_from_slice(&[1, 1, 1, 1]);
    bytes.extend_from_slice(&[0x12, 0x34, 0, 54, 0, 8, 0xab, 0xcd]);
    let packet = Ipv4Packet::new(&bytes).unwrap();
    match &packet.payload {
        Some(Transport::Udp(udp)) => {
            assert_eq!(udp.header.source_port, 0x1234);
            assert_eq!(udp.header.checksum, 0xabcd);
        },
        other => panic!("unexpected payload {:?}", other),
    }
}

#[test]
fn next_header_names() {
    assert_eq!(protocol_to_string(4), "IPv4");
    assert_eq!(protocol_to_string(6), "Tcp");
    assert_eq!(protocol_to_string(17), "Udp");
    assert_eq!(protocol_to_string(41), "IPv6");
    assert_eq!(protocol_to_string(1), "Unknown");
    let descriptor = set_next_header(17);
    assert_eq!(descriptor.protocol_name, "Udp");
    assert_eq!(descriptor.protocol_type, ExtendedType::Known(17));
    let malformed = Ipv4Header::set_proto_descriptor(ExtendedType::Malformed);
    assert_eq!(malformed.protocol_name, "malformed");
}

#[test]
fn ipv6_and_ipv4_in_ipv4_are_not_decoded() {
    for protocol in [4u8, 41, 1, 0, 255] {
        let mut bytes = ipv4_header(5, 60, protocol);
        bytes.extend_from_slice(&[0x45; 40]);
        let packet = Ipv4Packet::new(&bytes).unwrap();
        assert!(packet.payload.is_none());
        assert!(packet.get_next().is_none());
    }
}

#[test]
fn truncated_transport_header_ends_the_chain() {
    let mut bytes = ipv4_header(5, 39, 6);
    bytes.extend_from_slice(&[0; 19]);
    assert!(Ipv4Packet::new(&bytes).unwrap().payload.is_none());
    let mut bytes = ipv4_header(5, 27, 17);
    bytes.extend_from_slice(&[0; 7]);
    assert!(Ipv4Packet::new(&bytes).unwrap().payload.is_none());
}

#[test]
fn malformed_ipv4_header() {
    let header = Ipv4Header::malformed(&[1, 2, 3]);
    assert_eq!(header.version_ihl, 4);
    assert_eq!(header.total_length, 0);
    assert_eq!(header.source_address, "");
    assert_eq!(header.destination_address, "");
    assert_eq!(header.next_header.protocol_name, "malformed");
    assert_eq!(header.next_header.protocol_type, ExtendedType::Malformed);
    assert!(header.options.is_empty());
    assert!(!header.flags.reserved && !header.flags.dontfrag && !header.flags.morefrag);
}

#[test]
fn ipv4_summary_fields() {
    let mut bytes = ipv4_header(5, 20, 6);
    bytes[6] = 0x20;
    bytes[7] = 0x00;
    let packet = Ipv4Packet::new(&bytes).unwrap();
    assert_eq!(
        field_pairs(&packet.get_summary()),
        vec![
            ("protocol", "ipv4"),
            ("version", "4"),
            ("dscp", "4"),
            ("ecn", "1"),
            ("total_length", "20"),
            ("identification", "258"),
            ("flags_fragment_offset", "0"),
            ("time_to_live", "64"),
            ("header_checksum", "46670"),
            ("source_address", "192.168.0.1"),
            ("destination_address", "10.0.200.255"),
            ("next_header", "protocol : Tcp"),
            ("flags", "reserved : false, dont fragment : false,  more fragment : true"),
            ("options", ""),
        ]
    );
}

#[test]
fn ipv6_header_as_a_layer() {
    let header = Ipv6Header {
        payload: vec![1, 2],
        traffic_class: 3,
        flow_label: 77,
        payload_length: 2,
        hop_limit: 64,
        source: "fe80::1".to_string(),
        destination: "ff02::1".to_string(),
        version: 6,
    };
    let layer = Layer::Ipv6(&header);
    assert!(layer.get_next().is_none());
    assert_eq!(layer.protocol_type(), ProtocolType::Ipv6);
    assert_eq!(layer.source(), "fe80::1");
    assert_eq!(layer.destination(), "ff02::1");
    assert_eq!(layer.info(), "IPv6 fe80::1 -> ff02::1");
    assert_eq!(
        field_pairs(&layer.get_summary()),
        vec![
            ("protocol", "ipv6"),
            ("version", "6"),
            ("traffic_class", "3"),
            ("flow_label", "77"),
            ("payload_length", "2"),
            ("hop_limit", "64"),
            ("source", "fe80::1"),
            ("destination", "ff02::1"),
        ]
    );
}

#[test]
fn next_header_default_is_malformed() {
    assert_eq!(ExtendedNextHeader::default(), ExtendedNextHeader::Malformed);
}

#[test]
fn ipv4_fields_match_the_bytes() {
    let mut state = 99u32;
    for _ in 0..300usize {
        let bytes: Vec<u8> = (0..20).map(|_| next_byte(&mut state)).collect();
        let packet = Ipv4Packet::new(&bytes).unwrap();
        let header = &packet.header;
        assert_eq!(header.version_ihl, bytes[0] >> 4);
        assert_eq!(header.dscp, bytes[1] >> 2);
        assert_eq!(header.ecn, bytes[1] & 3);
        assert_eq!(header.total_length, u16::from_be_bytes([bytes[2], bytes[3]]));
        assert_eq!(header.identification, u16::from_be_bytes([bytes[4], bytes[5]]));
        assert_eq!(header.flags, Ipv4Header::set_flags(bytes[6] >> 5));
        assert_eq!(
            header.flags_fragment_offset,
            u16::from_be_bytes([bytes[6] & 0x1f, bytes[7]])
        );
        assert_eq!(header.time_to_live, bytes[8]);
        assert_eq!(header.next_header.protocol_type, ExtendedType::Known(bytes[9]));
        assert_eq!(header.header_checksum, u16::from_be_bytes([bytes[10], bytes[11]]));
        assert_eq!(
            header.source_address,
            format!("{}.{}.{}.{}", bytes[12], bytes[13], bytes[14], bytes[15])
        );
        assert_eq!(
            header.destination_address,
            format!("{}.{}.{}.{}", bytes[16], bytes[17], bytes[18], bytes[19])
        );
    }
}

#[test]
fn ipv4_payload_matches_the_length_fields() {
    let mut state = 2024u32;
    for _ in 0..400usize {
        let ihl = next_byte(&mut state) % 16;
        let extra = (next_byte(&mut state) % 90) as usize;
        let total = (next_byte(&mut state) % 120) as u16;
        let mut bytes = ipv4_header(ihl, total, 17);
        for _ in 0..extra {
            bytes.push(next_byte(&mut state) | 0x40);
        }
        let header_len = ihl as usize * 4;
        let start = 20 + header_len.saturating_sub(20);
        let announced = (total as usize).saturating_sub(header_len);
        let expected: &[u8] = if bytes.len() <= start {
            &[]
        } else {
            &bytes[start..(start + announced).min(bytes.len())]
        };
        let packet = Ipv4Packet::new(&bytes).unwrap();
        match &packet.payload {
            None => assert!(expected.len() < 8),
            Some(Transport::Udp(udp)) => {
                assert!(expected.len() >= 8);
                assert_eq!(udp.header.source_port, u16::from_be_bytes([expected[0], expected[1]]));
                assert_eq!(udp.header.checksum, u16::from_be_bytes([expected[6], expected[7]]));
                match &udp.payload {
                    packet_decode::application::Application::Other(data) => {
                        assert_eq!(data.as_slice(), &expected[8..])
                    },
                    other => panic!("unexpected payload {:?}", other),
                }
            },
            other => panic!("unexpected payload {:?}", other),
        }
    }
}
