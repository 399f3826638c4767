use packet_decode::application::Application;
use packet_decode::descriptor::ProtocolType;
use packet_decode::ethernet::EthernetFrame;
use packet_decode::layer::{get_innermost_info, Layer};
use packet_decode::transport::Transport;

fn link_header() -> Vec<u8> {
    vec![0xaa, 0xbb, 0xcc, 0xdd, 0xee, 0xff, 0x02, 0x00, 0x00, 0x00, 0x00, 0x01, 0x08, 0x00]
}

fn internet_header(protocol: u8, payload_len: usize) -> Vec<u8> {
    let total = (20 + payload_len) as u16;
    vec![
        0x45,
        0x00,
        (total >> 8) as u8,
        total as u8,
        0x00,
        0x01,
        0x40,
        0x00,
        0x40,
        protocol,
        0x00,
        0x00,
        192,
        168,
        1,
        10,
        8,
        8,
        8,
        8,
    ]
}

fn dns_query_bytes() -> Vec<u8> {
    let mut bytes = vec![0xbe, 0xef, 0x01, 0x00, 0, 1, 0, 0, 0, 0, 0, 0];
    bytes.extend_from_slice(&[4, b'r', b'u', b's', b't', 4, b'l', b'a', b'n', b'g', 3]);
    bytes.extend_from_slice(&[b'o', b'r', b'g', 0, 0, 28, 0, 1]);
    bytes
}

fn tcp_frame(payload: &[u8]) -> Vec<u8> {
    let mut segment = vec![0x01, 0xbb, 0xc7, 0x38, 0, 0, 0, 1, 0, 0, 0, 2, 0x50, 0x18, 1, 0, 0, 0];
    segment.extend_from_slice(&[0, 0]);
    segment.extend_from_slice(payload);
    let mut frame = link_header();
    frame.extend_from_slice(&internet_header(6, segment.len()));
    frame.extend_from_slice(&segment);
    frame
}

fn udp_frame(payload: &[u8]) -> Vec<u8> {
    let len = (8 + payload.len()) as u16;
    let mut datagram = vec![0xd4, 0x31, 0x00, 0x35, (len >> 8) as u8, len as u8, 0, 0];
    datagram.extend_from_slice(payload);
    let mut frame = link_header();
    frame.extend_from_slice(&internet_header(17, datagram.len()));
    frame.extend_from_slice(&datagram);
    frame
}

fn tags(frame: &EthernetFrame) -> Vec<ProtocolType> {
    let mut all = Vec::new();
    let mut layer = Some(Layer::Ethernet(frame));
    while let Some(current) = layer {
        all.push(current.protocol_type());
        layer = current.get_next();
    }
    all
}

#[test]
fn tcp_frame_has_four_layers() {
    let frame = EthernetFrame::new(7, "2024-01-01T00:00:00Z".to_string(), &tcp_frame(b"hi there"));
    assert_eq!(
        tags(&frame),
        vec![ProtocolType::Ethernet, ProtocolType::Ipv4, ProtocolType::Tcp, ProtocolType::Other]
    );
    let long = frame.get_long();
    assert_eq!(long.len(), 4);
    assert_eq!(long[0][0], ("protocol".to_string(), "ethernet".to_string()));
    assert_eq!(long[1][0], ("protocol".to_string(), "ipv4".to_string()));
    assert_eq!(long[2][0], ("protocol".to_string(), "tcp".to_string()));
    assert_eq!(long[3][0], ("protocol".to_string(), "data".to_string()));
    let short = frame.get_short();
    assert_eq!(short.id, 7);
    assert_eq!(short.timestamp, "2024-01-01T00:00:00Z");
    assert_eq!(short.protocol, ProtocolType::Other);
    assert_eq!(short.info, "8 bytes of data");
    assert_eq!(short.source, "443");
    assert_eq!(short.destination, "51000");
}

#[test]
fn tcp_frame_with_a_dns_payload() {
    let frame = EthernetFrame::new(1, String::new(), &tcp_frame(&dns_query_bytes()));
    assert_eq!(
        tags(&frame),
        vec![ProtocolType::Ethernet, ProtocolType::Ipv4, ProtocolType::Tcp, ProtocolType::Dns]
    );
    assert_eq!(frame.get_short().protocol, ProtocolType::Dns);
}

#[test]
fn udp_frame_with_a_dns_query() {
    let frame = EthernetFrame::new(2, "t".to_string(), &udp_frame(&dns_query_bytes()));
    assert_eq!(
        tags(&frame),
        vec![ProtocolType::Ethernet, ProtocolType::Ipv4, ProtocolType::Udp, ProtocolType::Dns]
    );
    let short = frame.get_short();
    assert_eq!(short.protocol, ProtocolType::Dns);
    assert_eq!(short.info, "DNS query, id 48879");
    assert_eq!(short.source, "54321");
    assert_eq!(short.destination, "53");
    let long = frame.get_long();
    assert_eq!(long.len(), 4);
    assert_eq!(long[3].last().unwrap(), &("question".to_string(), "rust.lang.org.".to_string()));
    let ip = frame.payload.as_ref().unwrap();
    assert_eq!(ip.header.source_address, "192.168.1.10");
    match ip.payload.as_ref().unwrap() {
        Transport::Udp(udp) => match &udp.payload {
            Application::Dns(message) => assert_eq!(message.questions[0].qtype, 28),
            other => panic!("unexpected payload {:?}", other),
        },
        other => panic!("unexpected transport {:?}", other),
    }
}

#[test]
fn internet_layer_without_transport_gives_the_addresses() {
    let mut bytes = link_header();
    bytes.extend_from_slice(&internet_header(1, 4));
    bytes.extend_from_slice(&[8, 0, 0, 0]);
    let frame = EthernetFrame::new(3, String::new(), &bytes);
    assert_eq!(tags(&frame), vec![ProtocolType::Ethernet, ProtocolType::Ipv4]);
    let short = frame.get_short();
    assert_eq!(short.protocol, ProtocolType::Ipv4);
    assert_eq!(short.source, "192.168.1.10");
    assert_eq!(short.destination, "8.8.8.8");
    assert_eq!(short.info, "flags: MoreFrag: false DontFrag: true Reserved: false");
    assert_eq!(frame.get_long().len(), 2);
}

#[test]
fn every_layer_names_its_protocol_first() {
    for bytes in [tcp_frame(b"x"), udp_frame(&dns_query_bytes()), vec![1, 2, 3], link_header()] {
        let frame = EthernetFrame::new(0, String::new(), &bytes);
        let long = frame.get_long();
        assert!(!long.is_empty() && long.len() <= 4);
        assert_eq!(long.len(), tags(&frame).len());
        for fields in &long {
            assert_eq!(fields[0].0, "protocol");
            for (i, (name, _)) in fields.iter().enumerate() {
                assert!(fields[..i].iter().all(|(earlier, _)| earlier != name));
            }
        }
    }
}

#[test]
fn innermost_layer_of_each_start() {
    let frame = EthernetFrame::new(0, String::new(), &tcp_frame(b"abc"));
    let link = Layer::Ethernet(&frame);
    let (tag, info) = get_innermost_info(link);
    assert_eq!(tag, ProtocolType::Other);
    assert_eq!(info, "3 bytes of data");
    let internet = link.get_next().unwrap();
    assert_eq!(get_innermost_info(internet).0, ProtocolType::Other);
    assert_eq!(internet.endpoints(), ("443".to_string(), "51000".to_string()));
    let transport = internet.get_next().unwrap();
    assert!(transport.has_endpoints());
    assert_eq!(transport.endpoints(), ("443".to_string(), "51000".to_string()));
    let application = transport.get_next().unwrap();
    assert!(!application.has_endpoints());
    assert!(application.get_next().is_none());
    assert_eq!(application.source(), "");
    assert_eq!(application.destination(), "");
    assert_eq!(get_innermost_info(application).1, "3 bytes of data");
    assert_eq!(transport.info(), "TCP Source Port 443 -> Destination 51000");
    assert_eq!(transport.source(), "443");
    assert_eq!(internet.destination(), "8.8.8.8");
    assert_eq!(link.source(), "02:00:00:00:00:01");
    assert_eq!(link.get_summary().len(), 5);
}

#[test]
fn malformed_frame_description() {
    let frame = EthernetFrame::new(9, "late".to_string(), &[0xde, 0xad]);
    let short = frame.get_short();
    assert_eq!(short.id, 9);
    assert_eq!(short.protocol, ProtocolType::Ethernet);
    assert_eq!(short.source, "");
    assert_eq!(short.destination, "");
    assert_eq!(short.info, "next header malformed");
    assert_eq!(frame.get_long().len(), 1);
}
