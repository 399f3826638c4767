use packet_decode::capture::{
    get_describable, Capture, CaptureAction, CaptureEvent, CaptureSource, Producer, StartError,
    POLL_INTERVAL_MS,
};
use packet_decode::ethernet::EthernetFrame;

fn numbered(id: i32) -> EthernetFrame {
    EthernetFrame::new(id, format!("t{}", id), &[id as u8; 3])
}

fn ids(capture: &Capture) -> Vec<i32> {
    capture.captured_packets.iter().map(|frame| frame.id).collect()
}

#[test]
fn new_capture_is_idle_and_empty() {
    let capture = Capture::new();
    assert!(!capture.running);
    assert!(!capture.from_file);
    assert!(capture.pcap_file.is_none());
    assert!(capture.selected_packet.is_none());
    assert!(capture.captured_packets.is_empty());
    assert_eq!(POLL_INTERVAL_MS, 100);
}

#[test]
fn frames_arrive_once_and_in_order() {
    let mut capture = Capture::new();
    capture.get_packets(vec![numbered(0), numbered(1)]);
    capture.get_packets(vec![]);
    capture.get_packets(vec![numbered(2)]);
    capture.get_packets(vec![numbered(3), numbered(4), numbered(5)]);
    assert_eq!(ids(&capture), vec![0, 1, 2, 3, 4, 5]);
    assert_eq!(capture.captured_packets[4].timestamp, "t4");
}

#[test]
fn polls_of_a_running_capture_take_over_every_frame() {
    let mut capture = Capture::new();
    assert!(matches!(
        capture.update(CaptureEvent::Start),
        CaptureAction::Begin(CaptureSource::Live)
    ));
    assert!(matches!(capture.update(CaptureEvent::Opened), CaptureAction::PollAgain));
    let mut producer = Producer::new();
    let mut queue = Vec::new();
    for n in 0..20u8 {
        queue.push(producer.capture(false, String::new(), &[n; 20]).unwrap());
        if n % 3 == 0 {
            let arrived = std::mem::take(&mut queue);
            assert!(matches!(
                capture.update(CaptureEvent::Poll(arrived)),
                CaptureAction::PollAgain
            ));
        }
    }
    assert!(producer.capture(true, String::new(), &[0; 20]).is_none());
    assert!(matches!(capture.update(CaptureEvent::Poll(queue)), CaptureAction::PollAgain));
    assert!(matches!(capture.update(CaptureEvent::Stop), CaptureAction::End));
    assert_eq!(ids(&capture), (0..20).collect::<Vec<i32>>());
}

#[test]
fn frames_queued_at_a_stop_still_arrive() {
    let mut capture = Capture::new();
    capture.update(CaptureEvent::Start);
    capture.update(CaptureEvent::Opened);
    assert!(capture.running);
    capture.update(CaptureEvent::Poll(vec![numbered(0), numbered(1)]));
    assert!(matches!(capture.update(CaptureEvent::Stop), CaptureAction::End));
    assert!(!capture.running);
    assert_eq!(ids(&capture), vec![0, 1]);
    assert!(matches!(
        capture.update(CaptureEvent::Poll(vec![numbered(2), numbered(3)])),
        CaptureAction::Idle
    ));
    assert!(matches!(capture.update(CaptureEvent::Poll(vec![numbered(4)])), CaptureAction::Idle));
    assert!(matches!(capture.update(CaptureEvent::Poll(vec![])), CaptureAction::Idle));
    assert!(!capture.running);
    assert_eq!(ids(&capture), vec![0, 1, 2, 3, 4]);
}

#[test]
fn opening_without_a_chosen_file_is_reported() {
    let mut capture = Capture::new();
    capture.get_packets(vec![numbered(7)]);
    assert!(matches!(capture.update(CaptureEvent::Open), CaptureAction::NoFile));
    assert!(!capture.running);
    assert!(capture.pcap_file.is_none());
    assert_eq!(ids(&capture), vec![7]);
    assert!(capture.source(true).is_none());
    assert_eq!(capture.start(true, true), Err(StartError::NoFile));
    assert_eq!(capture.start(true, false), Err(StartError::NoFile));
    assert!(!capture.running);
    assert_eq!(ids(&capture), vec![7]);
}

#[test]
fn a_source_that_cannot_be_opened_leaves_the_session_stopped() {
    let mut capture = Capture::new();
    capture.get_packets(vec![numbered(1)]);
    assert!(matches!(
        capture.update(CaptureEvent::Start),
        CaptureAction::Begin(CaptureSource::Live)
    ));
    assert!(!capture.running);
    assert!(matches!(capture.update(CaptureEvent::StartFailed), CaptureAction::Idle));
    assert!(!capture.running);
    assert_eq!(ids(&capture), vec![1]);
    capture.update(CaptureEvent::FilePicked("missing.pcap".to_string()));
    assert!(matches!(
        capture.update(CaptureEvent::Open),
        CaptureAction::Begin(CaptureSource::File(_))
    ));
    assert!(!capture.running);
    assert!(matches!(capture.update(CaptureEvent::StartFailed), CaptureAction::Idle));
    assert!(!capture.running);
    assert_eq!(capture.pcap_file.as_deref(), Some("missing.pcap"));
    assert_eq!(ids(&capture), vec![1]);
    assert_eq!(capture.start(false, false), Err(StartError::Unavailable));
    assert_eq!(capture.start(true, false), Err(StartError::Unavailable));
    assert!(!capture.running);
    assert_eq!(ids(&capture), vec![1]);
}

#[test]
fn start_and_stop() {
    let mut capture = Capture::new();
    assert!(matches!(capture.source(false), Some(CaptureSource::Live)));
    assert_eq!(capture.start(false, true), Ok(()));
    assert!(capture.running);
    capture.get_packets(vec![numbered(1)]);
    capture.stop();
    assert!(!capture.running);
    assert_eq!(ids(&capture), vec![1]);
    capture.stop();
    assert!(!capture.running);
}

#[test]
fn start_from_the_chosen_file() {
    let mut capture = Capture::new();
    capture.pcap_file = Some("trace.pcap".to_string());
    match capture.source(true) {
        Some(CaptureSource::File(path)) => assert_eq!(path, "trace.pcap"),
        other => panic!("unexpected source {:?}", other),
    }
    assert!(!capture.running);
    assert_eq!(capture.start(true, true), Ok(()));
    assert!(capture.running);
    assert_eq!(capture.pcap_file.as_deref(), Some("trace.pcap"));
}

#[test]
fn events_of_a_session() {
    let mut capture = Capture::new();
    assert!(matches!(
        capture.update(CaptureEvent::FilePicked("a.cap".to_string())),
        CaptureAction::Idle
    ));
    assert_eq!(capture.pcap_file.as_deref(), Some("a.cap"));
    match capture.update(CaptureEvent::Open) {
        CaptureAction::Begin(CaptureSource::File(path)) => assert_eq!(path, "a.cap"),
        other => panic!("unexpected action {:?}", other),
    }
    assert!(!capture.running);
    assert!(matches!(capture.update(CaptureEvent::Opened), CaptureAction::PollAgain));
    assert!(capture.running);
    assert!(matches!(capture.update(CaptureEvent::Open), CaptureAction::Idle));
    assert!(matches!(capture.update(CaptureEvent::Start), CaptureAction::Idle));
    assert!(capture.running);
    assert!(matches!(capture.update(CaptureEvent::Stop), CaptureAction::End));
    assert!(!capture.running);
    assert!(matches!(
        capture.update(CaptureEvent::Start),
        CaptureAction::Begin(CaptureSource::Live)
    ));
}

#[test]
fn producer_numbers_frames_and_stops_for_good() {
    let mut producer = Producer::new();
    let first = producer.capture(false, "a".to_string(), &[1, 2, 3]).unwrap();
    let second = producer.capture(false, "b".to_string(), &[4; 14]).unwrap();
    assert_eq!((first.id, second.id), (0, 1));
    assert_eq!(first.timestamp, "a");
    assert!(first.header.malformed);
    assert!(!second.header.malformed);
    assert_eq!(producer.next_id, 2);
    assert!(producer.capture(true, String::new(), &[0; 14]).is_none());
    assert!(producer.stopped);
    assert!(producer.capture(false, String::new(), &[0; 14]).is_none());
    assert_eq!(producer.next_id, 2);
}

#[test]
fn producer_stops_when_the_numbers_run_out() {
    let mut producer = Producer { next_id: i32::MAX - 1, stopped: false };
    assert_eq!(producer.capture(false, String::new(), &[]).unwrap().id, i32::MAX - 1);
    assert!(producer.capture(false, String::new(), &[]).is_none());
    assert!(producer.stopped);
}

#[test]
fn lookup_finds_the_frame_with_the_number() {
    let buffers = vec![vec![numbered(0), numbered(1)], vec![], vec![numbered(2), numbered(3)]];
    for id in 0..4 {
        let frame = get_describable(&buffers, id).unwrap();
        assert_eq!(frame.id, id);
        assert_eq!(frame.timestamp, format!("t{}", id));
    }
}

#[test]
fn lookup_of_a_number_never_issued_finds_nothing() {
    let buffers = vec![vec![numbered(0), numbered(1)], vec![numbered(2)]];
    assert!(get_describable(&buffers, 3).is_none());
    assert!(get_describable(&buffers, -1).is_none());
    assert!(get_describable(&buffers, i32::MIN).is_none());
    assert!(get_describable(&buffers, i32::MAX).is_none());
    assert!(get_describable(&[], 0).is_none());
    assert!(get_describable(&[vec![], vec![]], 0).is_none());
}

#[test]
fn lookup_returns_the_first_of_equal_numbers() {
    let mut late = numbered(1);
    late.timestamp = "late".to_string();
    let buffers = vec![vec![numbered(0)], vec![numbered(1), late]];
    assert_eq!(get_describable(&buffers, 1).unwrap().timestamp, "t1");
}
