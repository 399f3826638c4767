//! The DNS message format: header, question section and the three record
//! sections, read from the bytes of a transport payload.

use crate::bytes::{append_range, be16, be32, read_be16, read_be32};
use vstd::prelude::*;

verus! {

/// Length of the DNS header.
pub const DNS_HEADER_LEN: usize = 12;

/// The six numbers of a DNS header.
#[derive(Clone, Copy, Debug, PartialEq, Eq, Structural)]
pub struct DnsHeader {
    pub id: u16,
    pub flags: u16,
    pub question_count: u16,
    pub answer_count: u16,
    pub authority_count: u16,
    pub additional_count: u16,
}

/// A domain name as it stands in a message: the labels up to the root label
/// or up to a compression pointer.
#[derive(Clone, Debug)]
pub struct DnsName {
    /// The labels in order, each followed by a dot.
    pub text: Vec<u8>,
    /// The offset that a compression pointer at the end of the labels names.
    pub pointer: Option<u16>,
}

/// One entry of the question section.
#[derive(Clone, Debug)]
pub struct DnsQuestion {
    pub name: DnsName,
    pub qtype: u16,
    pub qclass: u16,
}

/// One resource record of the answer, authority or additional section.
#[derive(Clone, Debug)]
pub struct DnsRecord {
    pub name: DnsName,
    pub rtype: u16,
    pub class: u16,
    pub ttl: u32,
    pub data: Vec<u8>,
}

/// A DNS message.
#[derive(Clone, Debug)]
pub struct DnsMessage {
    pub header: DnsHeader,
    pub questions: Vec<DnsQuestion>,
    pub answers: Vec<DnsRecord>,
    pub authorities: Vec<DnsRecord>,
    pub additionals: Vec<DnsRecord>,
}

/// Why a byte sequence is no DNS message.
#[derive(Clone, Copy, Debug, PartialEq, Eq, Structural)]
pub enum DnsError {
    /// Fewer bytes than a header has.
    TruncatedHeader,
    /// The question section does not hold as many questions as announced.
    Question,
    /// The answer section does not hold as many records as announced.
    Answer,
    /// The authority section does not hold as many records as announced.
    Authority,
    /// The additional section does not hold as many records as announced.
    Additional,
    /// Bytes follow the last announced record.
    TrailingBytes,
}

/// A domain name as a mathematical value.
pub struct DnsNameView {
    pub text: Seq<u8>,
    pub pointer: Option<u16>,
}

/// A question as a mathematical value.
pub struct DnsQuestionView {
    pub name: DnsNameView,
    pub qtype: u16,
    pub qclass: u16,
}

/// A resource record as a mathematical value.
pub struct DnsRecordView {
    pub name: DnsNameView,
    pub rtype: u16,
    pub class: u16,
    pub ttl: u32,
    pub data: Seq<u8>,
}

/// A message as a mathematical value.
pub struct DnsMessageView {
    pub header: DnsHeader,
    pub questions: Seq<DnsQuestionView>,
    pub answers: Seq<DnsRecordView>,
    pub authorities: Seq<DnsRecordView>,
    pub additionals: Seq<DnsRecordView>,
}

impl View for DnsName {
    type V = DnsNameView;

    open spec fn view(&self) -> DnsNameView {
        DnsNameView { text: self.text@, pointer: self.pointer }
    }
}

impl View for DnsQuestion {
    type V = DnsQuestionView;

    open spec fn view(&self) -> DnsQuestionView {
        DnsQuestionView { name: self.name@, qtype: self.qtype, qclass: self.qclass }
    }
}

impl View for DnsRecord {
    type V = DnsRecordView;

    open spec fn view(&self) -> DnsRecordView {
        DnsRecordView {
            name: self.name@,
            rtype: self.rtype,
            class: self.class,
            ttl: self.ttl,
            data: self.data@,
        }
    }
}

/// The views of the items of a sequence.
pub open spec fn views<T: View>(items: Seq<T>) -> Seq<T::V> {
    Seq::new(items.len(), |i: int| items[i]@)
}

impl View for DnsMessage {
    type V = DnsMessageView;

    open spec fn view(&self) -> DnsMessageView {
        DnsMessageView {
            header: self.header,
            questions: views(self.questions@),
            answers: views(self.answers@),
            authorities: views(self.authorities@),
            additionals: views(self.additionals@),
        }
    }
}

/// The header that the first twelve bytes of `s` hold.
pub open spec fn header_of(s: Seq<u8>) -> DnsHeader {
    DnsHeader {
        id: be16(s[0], s[1]),
        flags: be16(s[2], s[3]),
        question_count: be16(s[4], s[5]),
        answer_count: be16(s[6], s[7]),
        authority_count: be16(s[8], s[9]),
        additional_count: be16(s[10], s[11]),
    }
}

/// A name with `prefix` put before its labels.
pub open spec fn prefixed(prefix: Seq<u8>, rest: Option<(DnsNameView, int)>) -> Option<
    (DnsNameView, int),
> {
    match rest {
        None => None,
        Some((name, next)) => Some(
            (DnsNameView { text: prefix + name.text, pointer: name.pointer }, next),
        ),
    }
}

/// The name that starts at `pos`, and the position after it. A length byte
/// below 64 announces a label of that many bytes; zero ends the name; a byte
/// of 192 or more forms, with the byte after it, a compression pointer,
/// which ends the name too; the other values are no name. `None` where
/// the name does not end within `s`.
pub open spec fn name_at(s: Seq<u8>, pos: int) -> Option<(DnsNameView, int)>
    decreases s.len() - pos,
{
    if pos < 0 || pos >= s.len() {
        None
    } else if s[pos] == 0 {
        Some((DnsNameView { text: Seq::empty(), pointer: None }, pos + 1))
    } else if s[pos] >= 192 {
        if pos + 1 < s.len() {
            Some(
                (
                    DnsNameView {
                        text: Seq::empty(),
                        pointer: Some(be16((s[pos] - 192) as u8, s[pos + 1])),
                    },
                    pos + 2,
                ),
            )
        } else {
            None
        }
    } else if s[pos] >= 64 || pos + 1 + s[pos] > s.len() {
        None
    } else {
        prefixed(
            s.subrange(pos + 1, pos + 1 + s[pos]).push(46u8),
            name_at(s, pos + 1 + s[pos]),
        )
    }
}

/// The question that starts at `pos`, and the position after it.
pub open spec fn question_at(s: Seq<u8>, pos: int) -> Option<(DnsQuestionView, int)> {
    match name_at(s, pos) {
        None => None,
        Some((name, p)) => if p + 4 <= s.len() {
            Some(
                (
                    DnsQuestionView {
                        name,
                        qtype: be16(s[p], s[p + 1]),
                        qclass: be16(s[p + 2], s[p + 3]),
                    },
                    p + 4,
                ),
            )
        } else {
            None
        },
    }
}

/// The resource record that starts at `pos`, and the position after it.
pub open spec fn record_at(s: Seq<u8>, pos: int) -> Option<(DnsRecordView, int)> {
    match name_at(s, pos) {
        None => None,
        Some((name, p)) => if p + 10 <= s.len() && p + 10 + be16(s[p + 8], s[p + 9]) <= s.len() {
            Some(
                (
                    DnsRecordView {
                        name,
                        rtype: be16(s[p], s[p + 1]),
                        class: be16(s[p + 2], s[p + 3]),
                        ttl: be32(s[p + 4], s[p + 5], s[p + 6], s[p + 7]),
                        data: s.subrange(p + 10, p + 10 + be16(s[p + 8], s[p + 9])),
                    },
                    p + 10 + be16(s[p + 8], s[p + 9]),
                ),
            )
        } else {
            None
        },
    }
}

/// A list of items with `first` put before them.
pub open spec fn after<T>(first: Seq<T>, rest: Option<(Seq<T>, int)>) -> Option<(Seq<T>, int)> {
    match rest {
        None => None,
        Some((items, end)) => Some((first + items, end)),
    }
}

/// The `count` questions that start at `pos`, and the position after them.
pub open spec fn questions_at(s: Seq<u8>, pos: int, count: nat) -> Option<
    (Seq<DnsQuestionView>, int),
>
    decreases count,
{
    if count == 0 {
        Some((Seq::empty(), pos))
    } else {
        match question_at(s, pos) {
            None => None,
            Some((q, p)) => after(seq![q], questions_at(s, p, (count - 1) as nat)),
        }
    }
}

/// The `count` resource records that start at `pos`, and the position after
/// them.
pub open spec fn records_at(s: Seq<u8>, pos: int, count: nat) -> Option<
    (Seq<DnsRecordView>, int),
>
    decreases count,
{
    if count == 0 {
        Some((Seq::empty(), pos))
    } else {
        match record_at(s, pos) {
            None => None,
            Some((r, p)) => after(seq![r], records_at(s, p, (count - 1) as nat)),
        }
    }
}

/// The message that `s` holds, or why it holds none: the header, then as
/// many questions, answers, authority records and additional records as
/// the header announces, and nothing after them.
pub open spec fn message_of(s: Seq<u8>) -> Result<DnsMessageView, DnsError> {
    if s.len() < 12 {
        Err(DnsError::TruncatedHeader)
    } else {
        let header = header_of(s);
        match questions_at(s, 12, header.question_count as nat) {
            None => Err(DnsError::Question),
            Some((questions, p1)) => match records_at(s, p1, header.answer_count as nat) {
                None => Err(DnsError::Answer),
                Some((answers, p2)) => match records_at(s, p2, header.authority_count as nat) {
                    None => Err(DnsError::Authority),
                    Some((authorities, p3)) => match records_at(
                        s,
                        p3,
                        header.additional_count as nat,
                    ) {
                        None => Err(DnsError::Additional),
                        Some((additionals, p4)) => if p4 == s.len() {
                            Ok(
                                DnsMessageView {
                                    header,
                                    questions,
                                    answers,
                                    authorities,
                                    additionals,
                                },
                            )
                        } else {
                            Err(DnsError::TrailingBytes)
                        },
                    },
                },
            },
        }
    }
}

impl DnsName {
    /// Reads the name that starts at `start`.
    pub fn parse(data: &[u8], start: usize) -> (r: Option<(DnsName, usize)>)
        ensures
            match r {
                Some((name, next)) => name_at(data@, start as int) == Some((name@, next as int))
                    && start < next <= data@.len(),
                None => name_at(data@, start as int) is None,
            },
    {
        if start > data.len() {
            return None;
        }
        let mut text: Vec<u8> = Vec::new();
        let mut pos: usize = start;
        loop
            invariant
                start <= pos <= data@.len(),
                name_at(data@, start as int) == prefixed(text@, name_at(data@, pos as int)),
            decreases data@.len() - pos,
        {
            if pos >= data.len() {
                return None;
            }
            let b: u8 = data[pos];
            if b == 0 {
                return Some((DnsName { text, pointer: None }, pos + 1));
            }
            if b >= 192 {
                if pos + 1 < data.len() {
                    let target: u16 = ((b - 192) as u16) * 256 + data[pos + 1] as u16;
                    return Some((DnsName { text, pointer: Some(target) }, pos + 2));
                } else {
                    return None;
                }
            }
            let len: usize = b as usize;
            if b >= 64 || len > data.len() - pos - 1 {
                return None;
            }
            let ghost before = text@;
            let ghost label = data@.subrange(pos + 1, pos + 1 + len).push(46u8);
            append_range(&mut text, data, pos + 1, pos + 1 + len);
            text.push(46u8);
            proof {
                let rest = name_at(data@, pos + 1 + len);
                if rest is Some {
                    assert(before + (label + rest.unwrap().0.text) == (before + label)
                        + rest.unwrap().0.text);
                }
            }
            pos = pos + 1 + len;
        }
    }
}

impl DnsQuestion {
    /// Reads the question that starts at `start`.
    pub fn parse(data: &[u8], start: usize) -> (r: Option<(DnsQuestion, usize)>)
        ensures
            match r {
                Some((q, next)) => question_at(data@, start as int) == Some((q@, next as int))
                    && start < next <= data@.len(),
                None => question_at(data@, start as int) is None,
            },
    {
        match DnsName::parse(data, start) {
            None => None,
            Some((name, p)) => {
                if data.len() - p < 4 {
                    None
                } else {
                    let qtype = read_be16(data, p);
                    let qclass = read_be16(data, p + 2);
                    Some((DnsQuestion { name, qtype, qclass }, p + 4))
                }
            },
        }
    }
}

impl DnsRecord {
    /// Reads the resource record that starts at `start`.
    pub fn parse(data: &[u8], start: usize) -> (r: Option<(DnsRecord, usize)>)
        ensures
            match r {
                Some((record, next)) => record_at(data@, start as int) == Some(
                    (record@, next as int),
                ) && start < next <= data@.len(),
                None => record_at(data@, start as int) is None,
            },
    {
        match DnsName::parse(data, start) {
            None => None,
            Some((name, p)) => {
                if data.len() - p < 10 {
                    return None;
                }
                let rtype = read_be16(data, p);
                let class = read_be16(data, p + 2);
                let ttl = read_be32(data, p + 4);
                let len: usize = read_be16(data, p + 8) as usize;
                if data.len() - p - 10 < len {
                    return None;
                }
                let mut bytes: Vec<u8> = Vec::new();
                append_range(&mut bytes, data, p + 10, p + 10 + len);
                Some((DnsRecord { name, rtype, class, ttl, data: bytes }, p + 10 + len))
            },
        }
    }
}

/// Reads `count` questions that start at `start`.
fn parse_questions(data: &[u8], start: usize, count: u16) -> (r: Option<
    (Vec<DnsQuestion>, usize),
>)
    requires
        start <= data@.len(),
    ensures
        match r {
            Some((items, next)) => questions_at(data@, start as int, count as nat) == Some(
                (views(items@), next as int),
            ) && start <= next <= data@.len(),
            None => questions_at(data@, start as int, count as nat) is None,
        },
{
    let mut items: Vec<DnsQuestion> = Vec::new();
    let mut pos: usize = start;
    let mut done: u16 = 0;
    while done < count
        invariant
            done <= count,
            start <= pos <= data@.len(),
            questions_at(data@, start as int, count as nat) == after(
                views(items@),
                questions_at(data@, pos as int, (count - done) as nat),
            ),
        decreases count - done,
    {
        match DnsQuestion::parse(data, pos) {
            None => {
                return None;
            },
            Some((q, next)) => {
                items.push(q);
                pos = next;
                done = done + 1;
            },
        }
    }
    Some((items, pos))
}

/// Reads `count` resource records that start at `start`.
fn parse_records(data: &[u8], start: usize, count: u16) -> (r: Option<(Vec<DnsRecord>, usize)>)
    requires
        start <= data@.len(),
    ensures
        match r {
            Some((items, next)) => records_at(data@, start as int, count as nat) == Some(
                (views(items@), next as int),
            ) && start <= next <= data@.len(),
            None => records_at(data@, start as int, count as nat) is None,
        },
{
    let mut items: Vec<DnsRecord> = Vec::new();
    let mut pos: usize = start;
    let mut done: u16 = 0;
    while done < count
        invariant
            done <= count,
            start <= pos <= data@.len(),
            records_at(data@, start as int, count as nat) == after(
                views(items@),
                records_at(data@, pos as int, (count - done) as nat),
            ),
        decreases count - done,
    {
        match DnsRecord::parse(data, pos) {
            None => {
                return None;
            },
            Some((record, next)) => {
                items.push(record);
                pos = next;
                done = done + 1;
            },
        }
    }
    Some((items, pos))
}

impl DnsMessage {
    /// Reads a DNS message that takes up all of `data`.
    pub fn new(data: &[u8]) -> (r: Result<DnsMessage, DnsError>)
        ensures
            match r {
                Ok(message) => message_of(data@) == Ok::<DnsMessageView, DnsError>(message@),
                Err(e) => message_of(data@) == Err::<DnsMessageView, DnsError>(e),
            },
    {
        if data.len() < DNS_HEADER_LEN {
            return Err(DnsError::TruncatedHeader);
        }
        let header = DnsHeader {
            id: read_be16(data, 0),
            flags: read_be16(data, 2),
            question_count: read_be16(data, 4),
            answer_count: read_be16(data, 6),
            authority_count: read_be16(data, 8),
            additional_count: read_be16(data, 10),
        };
        let (questions, p1) = match parse_questions(data, DNS_HEADER_LEN, header.question_count) {
            None => {
                return Err(DnsError::Question);
            },
            Some(found) => found,
        };
        let (answers, p2) = match parse_records(data, p1, header.answer_count) {
            None => {
                return Err(DnsError::Answer);
            },
            Some(found) => found,
        };
        let (authorities, p3) = match parse_records(data, p2, header.authority_count) {
            None => {
                return Err(DnsError::Authority);
            },
            Some(found) => found,
        };
        let (additionals, p4) = match parse_records(data, p3, header.additional_count) {
            None => {
                return Err(DnsError::Additional);
            },
            Some(found) => found,
        };
        if p4 != data.len() {
            return Err(DnsError::TrailingBytes);
        }
        Ok(DnsMessage { header, questions, answers, authorities, additionals })
    }
}

} // verus!
