//! The buffer of captured frames and the decisions of a capture session:
//! when a capture starts and stops, what becomes of the frames that arrive,
//! and how a frame is found again by its number.

use crate::ethernet::{frame_of, EthernetFrame, EthernetFrameView};
use vstd::prelude::*;

verus! {

/// Milliseconds between two polls for arrived frames while a capture runs.
pub const POLL_INTERVAL_MS: u64 = 100;

/// Where the frames of a capture come from.
#[derive(Clone, Debug)]
pub enum CaptureSource {
    /// A network interface.
    Live,
    /// The capture file at the given path.
    File(String),
}

/// What the user of a capture session did, or what arrived for it.
#[derive(Debug)]
pub enum CaptureEvent {
    /// The poll timer fired; the frames that arrived since the last poll
    /// come with it, in the order of their arrival.
    Poll(Vec<EthernetFrame>),
    /// The user asked for a live capture.
    Start,
    /// The user asked for the capture to stop.
    Stop,
    /// The user chose a capture file.
    FilePicked(String),
    /// The user asked for the chosen capture file to be read.
    Open,
    /// The source of the capture that was to begin is open.
    Opened,
    /// The source of the capture that was to begin could not be opened.
    StartFailed,
}

/// What the surroundings of a capture session have to do next.
#[derive(Clone, Debug)]
pub enum CaptureAction {
    /// Nothing.
    Idle,
    /// Poll again after the poll interval.
    PollAgain,
    /// Open the source, and say whether it could be opened.
    Begin(CaptureSource),
    /// Stop the capture.
    End,
    /// Tell the user that no capture started, because no capture file was
    /// chosen.
    NoFile,
}

/// Why a capture did not start.
#[derive(Clone, Copy, Debug, PartialEq, Eq, Structural)]
pub enum StartError {
    /// A capture file was asked for and none was chosen.
    NoFile,
    /// The interface or the file could not be opened.
    Unavailable,
}

/// A capture session: whether it runs, the file chosen for it, and the
/// frames captured so far in the order of their arrival.
#[derive(Debug)]
pub struct Capture {
    pub running: bool,
    pub from_file: bool,
    pub pcap_file: Option<String>,
    pub captured_packets: Vec<EthernetFrame>,
    pub selected_packet: Option<i32>,
}

/// The frames of a buffer as mathematical values.
pub open spec fn frame_views(frames: Seq<EthernetFrame>) -> Seq<EthernetFrameView> {
    Seq::new(frames.len(), |i: int| frames[i]@)
}

/// A capture source that may be absent, as a mathematical value.
pub open spec fn source_view(source: Option<CaptureSource>) -> Option<CaptureSourceView> {
    match source {
        Some(source) => Some(source@),
        None => None,
    }
}

/// The text of a path that may be absent.
pub open spec fn path_view(path: Option<String>) -> Option<Seq<char>> {
    match path {
        Some(text) => Some(text@),
        None => None,
    }
}

/// A capture source as a mathematical value.
pub enum CaptureSourceView {
    Live,
    File(Seq<char>),
}

/// An event of a capture session as a mathematical value.
pub enum CaptureEventView {
    Poll(Seq<EthernetFrameView>),
    Start,
    Stop,
    FilePicked(Seq<char>),
    Open,
    Opened,
    StartFailed,
}

/// An action of a capture session as a mathematical value.
pub enum CaptureActionView {
    Idle,
    PollAgain,
    Begin(CaptureSourceView),
    End,
    NoFile,
}

/// A capture session as a mathematical value.
pub struct CaptureView {
    pub running: bool,
    pub from_file: bool,
    pub pcap_file: Option<Seq<char>>,
    pub frames: Seq<EthernetFrameView>,
    pub selected_packet: Option<i32>,
}

impl View for CaptureSource {
    type V = CaptureSourceView;

    open spec fn view(&self) -> CaptureSourceView {
        match self {
            CaptureSource::Live => CaptureSourceView::Live,
            CaptureSource::File(path) => CaptureSourceView::File(path@),
        }
    }
}

impl View for CaptureEvent {
    type V = CaptureEventView;

    open spec fn view(&self) -> CaptureEventView {
        match self {
            CaptureEvent::Poll(arrived) => CaptureEventView::Poll(frame_views(arrived@)),
            CaptureEvent::Start => CaptureEventView::Start,
            CaptureEvent::Stop => CaptureEventView::Stop,
            CaptureEvent::FilePicked(path) => CaptureEventView::FilePicked(path@),
            CaptureEvent::Open => CaptureEventView::Open,
            CaptureEvent::Opened => CaptureEventView::Opened,
            CaptureEvent::StartFailed => CaptureEventView::StartFailed,
        }
    }
}

impl View for CaptureAction {
    type V = CaptureActionView;

    open spec fn view(&self) -> CaptureActionView {
        match self {
            CaptureAction::Idle => CaptureActionView::Idle,
            CaptureAction::PollAgain => CaptureActionView::PollAgain,
            CaptureAction::Begin(source) => CaptureActionView::Begin(source@),
            CaptureAction::End => CaptureActionView::End,
            CaptureAction::NoFile => CaptureActionView::NoFile,
        }
    }
}

impl View for Capture {
    type V = CaptureView;

    open spec fn view(&self) -> CaptureView {
        CaptureView {
            running: self.running,
            from_file: self.from_file,
            pcap_file: path_view(self.pcap_file),
            frames: frame_views(self.captured_packets@),
            selected_packet: self.selected_packet,
        }
    }
}

impl CaptureView {
    /// The session that does not run and has captured nothing.
    pub open spec fn idle() -> CaptureView {
        CaptureView {
            running: false,
            from_file: false,
            pcap_file: None,
            frames: Seq::empty(),
            selected_packet: None,
        }
    }

    /// The session with `arrived` taken over: the arrived frames follow the
    /// frames captured before, in the order of their arrival.
    pub open spec fn with_arrived(self, arrived: Seq<EthernetFrameView>) -> CaptureView {
        CaptureView { frames: self.frames + arrived, ..self }
    }

    /// The session with its capture started or stopped.
    pub open spec fn with_running(self, running: bool) -> CaptureView {
        CaptureView { running, ..self }
    }

    /// The source of a capture that is to start in this session: a network
    /// interface, or the chosen file; none where a file is asked for and
    /// none was chosen.
    pub open spec fn source(self, from_file: bool) -> Option<CaptureSourceView> {
        if !from_file {
            Some(CaptureSourceView::Live)
        } else {
            match self.pcap_file {
                Some(path) => Some(CaptureSourceView::File(path)),
                None => None,
            }
        }
    }

    /// Whether a capture starts, given whether its source could be opened:
    /// it does where there is a source and the source is open.
    pub open spec fn start_result(self, from_file: bool, opened: bool) -> Result<(), StartError> {
        if self.source(from_file) is None {
            Err(StartError::NoFile)
        } else if !opened {
            Err(StartError::Unavailable)
        } else {
            Ok(())
        }
    }

    /// The session after an attempt to start a capture: it runs where the
    /// capture started, and is left as it was where it did not.
    pub open spec fn started(self, from_file: bool, opened: bool) -> CaptureView {
        if self.start_result(from_file, opened) is Ok {
            self.with_running(true)
        } else {
            self
        }
    }

    /// The session after `event`. A poll takes over the arrived frames,
    /// whether the capture runs or was stopped in the meantime. A request
    /// to start leaves the session as it is: the capture runs only once its
    /// source is open.
    pub open spec fn after(self, event: CaptureEventView) -> CaptureView {
        match event {
            CaptureEventView::Poll(arrived) => self.with_arrived(arrived),
            CaptureEventView::Start => self,
            CaptureEventView::Stop => self.with_running(false),
            CaptureEventView::FilePicked(path) => CaptureView { pcap_file: Some(path), ..self },
            CaptureEventView::Open => self,
            CaptureEventView::Opened => self.with_running(true),
            CaptureEventView::StartFailed => self.with_running(false),
        }
    }

    /// What has to be done after `event`. Only a running capture asks for
    /// the next poll, and only a session without a running capture asks for
    /// a source to be opened.
    pub open spec fn action(self, event: CaptureEventView) -> CaptureActionView {
        match event {
            CaptureEventView::Poll(_) => if self.running {
                CaptureActionView::PollAgain
            } else {
                CaptureActionView::Idle
            },
            CaptureEventView::Start => if self.running {
                CaptureActionView::Idle
            } else {
                CaptureActionView::Begin(CaptureSourceView::Live)
            },
            CaptureEventView::Stop => CaptureActionView::End,
            CaptureEventView::FilePicked(_) => CaptureActionView::Idle,
            CaptureEventView::Open => if self.running {
                CaptureActionView::Idle
            } else {
                match self.source(true) {
                    Some(source) => CaptureActionView::Begin(source),
                    None => CaptureActionView::NoFile,
                }
            },
            CaptureEventView::Opened => CaptureActionView::PollAgain,
            CaptureEventView::StartFailed => CaptureActionView::Idle,
        }
    }

    /// The session after each of `events` in turn.
    pub open spec fn after_all(self, events: Seq<CaptureEventView>) -> CaptureView
        decreases events.len(),
    {
        if events.len() == 0 {
            self
        } else {
            self.after_all(events.drop_last()).after(events.last())
        }
    }
}

/// One poll for each of `batches`, in order.
pub open spec fn polls(batches: Seq<Seq<EthernetFrameView>>) -> Seq<CaptureEventView> {
    Seq::new(batches.len(), |i: int| CaptureEventView::Poll(batches[i]))
}

/// The frames of `batches`, one batch after the other.
pub open spec fn in_arrival_order(batches: Seq<Seq<EthernetFrameView>>) -> Seq<EthernetFrameView>
    decreases batches.len(),
{
    if batches.len() == 0 {
        Seq::empty()
    } else {
        in_arrival_order(batches.drop_last()) + batches.last()
    }
}

impl Capture {
    /// The frames captured so far, as mathematical values.
    pub open spec fn frames(&self) -> Seq<EthernetFrameView> {
        self@.frames
    }

    /// A session that does not run and has captured nothing.
    pub fn new() -> (capture: Capture)
        ensures
            capture@ == CaptureView::idle(),
    {
        let capture = Capture {
            running: false,
            from_file: false,
            pcap_file: None,
            captured_packets: Vec::new(),
            selected_packet: None,
        };
        assert(capture@.frames =~= Seq::empty());
        capture
    }

    /// Takes over the frames that arrived since the last poll: they follow
    /// the frames captured before, in the order of their arrival, each once.
    pub fn get_packets(&mut self, arrived: Vec<EthernetFrame>)
        ensures
            final(self)@ == old(self)@.with_arrived(frame_views(arrived@)),
    {
        let ghost added = frame_views(arrived@);
        let mut arrived = arrived;
        self.captured_packets.append(&mut arrived);
        assert(self@.frames =~= old(self)@.frames + added);
    }

    /// The source that a capture would start from: a network interface, or
    /// the chosen file; `None` where a file is asked for and none was
    /// chosen.
    pub fn source(&self, from_file: bool) -> (source: Option<CaptureSource>)
        ensures
            source_view(source) == self@.source(from_file),
    {
        if from_file {
            match &self.pcap_file {
                Some(path) => Some(CaptureSource::File(path.clone())),
                None => None,
            }
        } else {
            Some(CaptureSource::Live)
        }
    }

    /// Starts a capture from the chosen file or from a network interface.
    /// `opened` says whether that source could be opened. Where there is no
    /// source or it could not be opened, no capture starts: the session
    /// stays as it is and the reason comes back.
    pub fn start(&mut self, from_file: bool, opened: bool) -> (r: Result<(), StartError>)
        ensures
            r == old(self)@.start_result(from_file, opened),
            final(self)@ == old(self)@.started(from_file, opened),
    {
        if from_file && self.pcap_file.is_none() {
            Err(StartError::NoFile)
        } else if !opened {
            Err(StartError::Unavailable)
        } else {
            self.running = true;
            Ok(())
        }
    }

    /// Stops the capture. The frames captured so far stay.
    pub fn stop(&mut self)
        ensures
            final(self)@ == old(self)@.with_running(false),
    {
        self.running = false;
    }

    /// Handles one event and says what has to be done next.
    pub fn update(&mut self, event: CaptureEvent) -> (action: CaptureAction)
        ensures
            final(self)@ == old(self)@.after(event@),
            action@ == old(self)@.action(event@),
    {
        match event {
            CaptureEvent::Poll(arrived) => {
                self.get_packets(arrived);
                if self.running {
                    CaptureAction::PollAgain
                } else {
                    CaptureAction::Idle
                }
            },
            CaptureEvent::Start => {
                if self.running {
                    CaptureAction::Idle
                } else {
                    CaptureAction::Begin(CaptureSource::Live)
                }
            },
            CaptureEvent::Stop => {
                self.stop();
                CaptureAction::End
            },
            CaptureEvent::FilePicked(path) => {
                self.pcap_file = Some(path);
                CaptureAction::Idle
            },
            CaptureEvent::Open => {
                if self.running {
                    CaptureAction::Idle
                } else {
                    match self.source(true) {
                        Some(source) => CaptureAction::Begin(source),
                        None => CaptureAction::NoFile,
                    }
                }
            },
            CaptureEvent::Opened => {
                self.running = true;
                CaptureAction::PollAgain
            },
            CaptureEvent::StartFailed => {
                self.stop();
                CaptureAction::Idle
            },
        }
    }
}

/// Whatever the polls of a session bring is in the buffer after them: every
/// frame once, in the order of arrival, behind the frames that were there
/// before. Nothing else of the session changes.
pub proof fn polled_frames_arrive_once_in_order(
    session: CaptureView,
    batches: Seq<Seq<EthernetFrameView>>,
)
    ensures
        session.after_all(polls(batches)).frames == session.frames + in_arrival_order(batches),
        session.after_all(polls(batches)) == session.with_arrived(in_arrival_order(batches)),
    decreases batches.len(),
{
    if batches.len() > 0 {
        polled_frames_arrive_once_in_order(session, batches.drop_last());
        assert(polls(batches).drop_last() == polls(batches.drop_last()));
    }
}

/// Stopping a capture keeps every frame that was taken over before, and
/// the frames that were queued when it stopped are not lost: the polls
/// after the stop bring each of them once, in the order of arrival, behind
/// the frames that were there. The capture stays stopped.
pub proof fn frames_queued_at_a_stop_arrive(
    session: CaptureView,
    queued: Seq<Seq<EthernetFrameView>>,
)
    ensures
        session.after(CaptureEventView::Stop).frames == session.frames,
        !session.after(CaptureEventView::Stop).after_all(polls(queued)).running,
        session.after(CaptureEventView::Stop).after_all(polls(queued)).frames == session.frames
            + in_arrival_order(queued),
        queued.len() > 0 ==> session.after(CaptureEventView::Stop).after_all(
            polls(queued.drop_last()),
        ).action(CaptureEventView::Poll(queued.last())) is Idle,
{
    polled_frames_arrive_once_in_order(session.after(CaptureEventView::Stop), queued);
    if queued.len() > 0 {
        polled_frames_arrive_once_in_order(
            session.after(CaptureEventView::Stop),
            queued.drop_last(),
        );
    }
}

/// A capture that cannot start leaves the session as it was, stopped and
/// with its frames, and says so. A request to start changes nothing by
/// itself; without a chosen file a request to open one is answered by
/// `NoFile`; and a source that could not be opened leaves the session
/// stopped.
pub proof fn failed_start_leaves_the_session_stopped(session: CaptureView, from_file: bool)
    requires
        !session.running,
    ensures
        session.after(CaptureEventView::Start) == session,
        session.after(CaptureEventView::Open) == session,
        session.pcap_file is None ==> session.action(CaptureEventView::Open) is NoFile,
        session.after(CaptureEventView::StartFailed) == session,
        session.started(from_file, false) == session,
        session.start_result(from_file, false) is Err,
        from_file && session.pcap_file is None ==> forall|opened: bool|
            session.started(from_file, opened) == session && session.start_result(
                from_file,
                opened,
            ) == Err::<(), StartError>(StartError::NoFile),
{
}

/// The capturing side of a session: the number of the next frame, and
/// whether it was told to stop.
#[derive(Clone, Copy, Debug, PartialEq, Eq, Structural)]
pub struct Producer {
    pub next_id: i32,
    pub stopped: bool,
}

impl Producer {
    /// Whether the producer decodes the next packet: it does unless it was
    /// stopped, sees the stop flag now, or has run out of numbers.
    pub open spec fn admits(self, stop: bool) -> bool {
        !self.stopped && !stop && self.next_id < i32::MAX
    }

    /// The producer after a packet that came with the given stop flag.
    pub open spec fn after(self, stop: bool) -> Producer {
        if self.admits(stop) {
            Producer { next_id: (self.next_id + 1) as i32, stopped: false }
        } else {
            Producer { next_id: self.next_id, stopped: true }
        }
    }

    /// The producer after one packet for each of the stop flags.
    pub open spec fn after_all(self, stops: Seq<bool>) -> Producer
        decreases stops.len(),
    {
        if stops.len() == 0 {
            self
        } else {
            self.after_all(stops.drop_last()).after(stops.last())
        }
    }

    /// A producer that numbers its first frame zero.
    pub fn new() -> (producer: Producer)
        ensures
            producer == (Producer { next_id: 0, stopped: false }),
    {
        Producer { next_id: 0, stopped: false }
    }

    /// Takes one captured packet. Unless the stop flag was seen, now or
    /// before, or the numbers have run out, the packet is decoded under the
    /// next number. Once stopped, the producer decodes nothing more.
    pub fn capture(&mut self, stop: bool, timestamp: String, packet: &[u8]) -> (r: Option<
        EthernetFrame,
    >)
        ensures
            *final(self) == old(self).after(stop),
            r is Some <==> old(self).admits(stop),
            r matches Some(frame) ==> frame@ == frame_of(old(self).next_id, timestamp@, packet@)
                && frame@.wf(),
    {
        if self.stopped || stop || self.next_id == i32::MAX {
            self.stopped = true;
            None
        } else {
            let frame = EthernetFrame::new(self.next_id, timestamp, packet);
            self.next_id = self.next_id + 1;
            Some(frame)
        }
    }
}

/// A producer that has seen the stop flag decodes nothing more, whatever
/// the flag holds later, and issues no further number.
pub proof fn stopped_producer_stays_stopped(producer: Producer, stops: Seq<bool>)
    requires
        producer.stopped,
    ensures
        producer.after_all(stops) == producer,
        forall|stop: bool| !producer.admits(stop),
    decreases stops.len(),
{
    if stops.len() > 0 {
        stopped_producer_stays_stopped(producer, stops.drop_last());
    }
}

/// The numbers that a producer issues only grow: each decoded frame has
/// the number after that of the frame decoded before it.
pub proof fn frame_numbers_grow(producer: Producer, stops: Seq<bool>)
    ensures
        producer.after_all(stops).next_id >= producer.next_id,
        producer.after_all(stops).next_id - producer.next_id <= stops.len(),
    decreases stops.len(),
{
    if stops.len() > 0 {
        frame_numbers_grow(producer, stops.drop_last());
    }
}

/// Whether `position` comes before `other` in the walk through several
/// buffers, one buffer after the other.
pub open spec fn comes_before(position: (int, int), other: (int, int)) -> bool {
    position.0 < other.0 || (position.0 == other.0 && position.1 < other.1)
}

/// Whether `position` names a frame of `buffers`.
pub open spec fn in_buffers(buffers: Seq<Vec<EthernetFrame>>, position: (int, int)) -> bool {
    0 <= position.0 < buffers.len() && 0 <= position.1 < buffers[position.0]@.len()
}

/// Whether the frame at `position` is the first of `buffers` with number
/// `id`.
pub open spec fn first_with_id(
    buffers: Seq<Vec<EthernetFrame>>,
    id: i32,
    position: (int, int),
) -> bool {
    &&& in_buffers(buffers, position)
    &&& buffers[position.0]@[position.1].id == id
    &&& forall|earlier: (int, int)|
        #![trigger in_buffers(buffers, earlier)]
        in_buffers(buffers, earlier) && comes_before(earlier, position)
            ==> buffers[earlier.0]@[earlier.1].id != id
}

/// Whether no frame of `buffers` has the number `id`.
pub open spec fn no_frame_with_id(buffers: Seq<Vec<EthernetFrame>>, id: i32) -> bool {
    forall|position: (int, int)|
        #![trigger in_buffers(buffers, position)]
        in_buffers(buffers, position) ==> buffers[position.0]@[position.1].id != id
}

/// Finds the frame with the number `id_to_find`: the first one in the walk
/// through the buffers, or `None` where no frame has that number.
pub fn get_describable(vectors: &[Vec<EthernetFrame>], id_to_find: i32) -> (found: Option<
    &EthernetFrame,
>)
    ensures
        found is None <==> no_frame_with_id(vectors@, id_to_find),
        found matches Some(frame) ==> exists|position: (int, int)|
            first_with_id(vectors@, id_to_find, position) && *frame
                == vectors@[position.0]@[position.1],
{
    let mut i: usize = 0;
    while i < vectors.len()
        invariant
            i <= vectors@.len(),
            forall|position: (int, int)|
                #![trigger in_buffers(vectors@, position)]
                in_buffers(vectors@, position) && position.0 < i
                    ==> vectors@[position.0]@[position.1].id != id_to_find,
        decreases vectors@.len() - i,
    {
        let buffer = &vectors[i];
        let mut j: usize = 0;
        while j < buffer.len()
            invariant
                i < vectors@.len(),
                *buffer == vectors@[i as int],
                j <= buffer@.len(),
                forall|position: (int, int)|
                    #![trigger in_buffers(vectors@, position)]
                    in_buffers(vectors@, position) && comes_before(position, (i as int, j as int))
                        ==> vectors@[position.0]@[position.1].id != id_to_find,
            decreases buffer@.len() - j,
        {
            if buffer[j].id == id_to_find {
                assert(first_with_id(vectors@, id_to_find, (i as int, j as int)));
                return Some(&buffer[j]);
            }
            j = j + 1;
        }
        i = i + 1;
    }
    None
}

} // verus!
