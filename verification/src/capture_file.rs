//! The capture file format: a file header that tells the byte order and the
//! link type, and after it one record for each captured frame.

use crate::bytes::{append_range, be32, read_be32};
use vstd::prelude::*;

verus! {

/// Length of the header of a capture file.
pub const FILE_HEADER_LEN: usize = 24;

/// Length of the header of each record.
pub const RECORD_HEADER_LEN: usize = 16;

/// The link type of Ethernet.
pub const LINK_TYPE_ETHERNET: u32 = 1;

/// The order of the bytes of each number of a capture file.
#[derive(Clone, Copy, Debug, PartialEq, Eq, Structural)]
pub enum ByteOrder {
    Little,
    Big,
}

/// Why a byte sequence is no capture file of Ethernet frames.
#[derive(Clone, Copy, Debug, PartialEq, Eq, Structural)]
pub enum CaptureFileError {
    /// Fewer bytes than a file header has.
    TruncatedHeader,
    /// The file does not start with the mark of a capture file.
    UnknownFormat,
    /// The frames of the file are of another link type than Ethernet.
    UnsupportedLink,
    /// The file ends within a record.
    TruncatedRecord,
}

/// One captured frame of a capture file.
#[derive(Clone, Debug)]
pub struct CaptureRecord {
    /// Seconds of the capture time since the epoch.
    pub seconds: u32,
    /// Nanoseconds of the capture time beyond the seconds.
    pub nanoseconds: u64,
    /// The bytes of the frame, as far as the file holds them.
    pub data: Vec<u8>,
}

/// One captured frame of a capture file as a mathematical value.
pub struct CaptureRecordView {
    pub seconds: u32,
    pub nanoseconds: u64,
    pub data: Seq<u8>,
}

impl View for CaptureRecord {
    type V = CaptureRecordView;

    open spec fn view(&self) -> CaptureRecordView {
        CaptureRecordView {
            seconds: self.seconds,
            nanoseconds: self.nanoseconds,
            data: self.data@,
        }
    }
}

/// The records of a list as mathematical values.
pub open spec fn record_views(records: Seq<CaptureRecord>) -> Seq<CaptureRecordView> {
    Seq::new(records.len(), |i: int| records[i]@)
}

/// The number that the four bytes from `at` on hold in the given order.
pub open spec fn word_at(s: Seq<u8>, at: int, order: ByteOrder) -> u32 {
    match order {
        ByteOrder::Big => be32(s[at], s[at + 1], s[at + 2], s[at + 3]),
        ByteOrder::Little => be32(s[at + 3], s[at + 2], s[at + 1], s[at]),
    }
}

/// The byte order that the mark at the start of a file of at least four
/// bytes tells, for times in microseconds and in nanoseconds alike.
pub open spec fn order_of(s: Seq<u8>) -> Option<ByteOrder> {
    let mark = be32(s[0], s[1], s[2], s[3]);
    if mark == 0xa1b2c3d4 || mark == 0xa1b23c4d {
        Some(ByteOrder::Big)
    } else if mark == 0xd4c3b2a1 || mark == 0x4d3cb2a1 {
        Some(ByteOrder::Little)
    } else {
        None
    }
}

/// Nanoseconds in one unit of the time fractions of a file of at least four
/// bytes: a thousand where the mark tells microseconds, one where it tells
/// nanoseconds.
pub open spec fn fraction_unit(s: Seq<u8>) -> u64 {
    let mark = be32(s[0], s[1], s[2], s[3]);
    if mark == 0xa1b23c4d || mark == 0x4d3cb2a1 {
        1
    } else {
        1000
    }
}

/// The records with `first` put before them.
pub open spec fn preceded(
    first: CaptureRecordView,
    rest: Option<Seq<CaptureRecordView>>,
) -> Option<Seq<CaptureRecordView>> {
    match rest {
        Some(records) => Some(seq![first] + records),
        None => None,
    }
}

/// The records that stand from `pos` on to the end of the file; `None`
/// where the file ends within a record.
pub open spec fn records_at(s: Seq<u8>, pos: int, order: ByteOrder, unit: u64) -> Option<
    Seq<CaptureRecordView>,
>
    decreases s.len() - pos,
{
    if pos < 0 || pos >= s.len() {
        Some(Seq::empty())
    } else if pos + 16 > s.len() || pos + 16 + word_at(s, pos + 8, order) > s.len() {
        None
    } else {
        preceded(
            CaptureRecordView {
                seconds: word_at(s, pos, order),
                nanoseconds: (word_at(s, pos + 4, order) * unit) as u64,
                data: s.subrange(pos + 16, pos + 16 + word_at(s, pos + 8, order)),
            },
            records_at(s, pos + 16 + word_at(s, pos + 8, order), order, unit),
        )
    }
}

/// The records of a capture file, or why `s` is none.
pub open spec fn records_of(s: Seq<u8>) -> Result<Seq<CaptureRecordView>, CaptureFileError> {
    if s.len() < 24 {
        Err(CaptureFileError::TruncatedHeader)
    } else {
        match order_of(s) {
            None => Err(CaptureFileError::UnknownFormat),
            Some(order) => if word_at(s, 20, order) != LINK_TYPE_ETHERNET {
                Err(CaptureFileError::UnsupportedLink)
            } else {
                match records_at(s, 24, order, fraction_unit(s)) {
                    Some(records) => Ok(records),
                    None => Err(CaptureFileError::TruncatedRecord),
                }
            },
        }
    }
}

/// Reads four bytes in the given order.
fn read_word(data: &[u8], at: usize, order: ByteOrder) -> (n: u32)
    requires
        at + 4 <= data@.len(),
    ensures
        n == word_at(data@, at as int, order),
{
    match order {
        ByteOrder::Big => read_be32(data, at),
        ByteOrder::Little => {
            let d: u32 = data[at] as u32;
            let c: u32 = data[at + 1] as u32;
            let b: u32 = data[at + 2] as u32;
            let a: u32 = data[at + 3] as u32;
            ((a * 256 + b) * 256 + c) * 256 + d
        },
    }
}

/// Splits a capture file into its records.
pub fn read_capture_file(data: &[u8]) -> (r: Result<Vec<CaptureRecord>, CaptureFileError>)
    ensures
        match r {
            Ok(records) => records_of(data@) == Ok::<Seq<CaptureRecordView>, CaptureFileError>(
                record_views(records@),
            ),
            Err(e) => records_of(data@) == Err::<Seq<CaptureRecordView>, CaptureFileError>(e),
        },
{
    if data.len() < FILE_HEADER_LEN {
        return Err(CaptureFileError::TruncatedHeader);
    }
    let mark = read_be32(data, 0);
    let order = if mark == 0xa1b2c3d4 || mark == 0xa1b23c4d {
        ByteOrder::Big
    } else if mark == 0xd4c3b2a1 || mark == 0x4d3cb2a1 {
        ByteOrder::Little
    } else {
        return Err(CaptureFileError::UnknownFormat);
    };
    if read_word(data, 20, order) != LINK_TYPE_ETHERNET {
        return Err(CaptureFileError::UnsupportedLink);
    }
    let unit: u64 = if mark == 0xa1b23c4d || mark == 0x4d3cb2a1 {
        1
    } else {
        1000
    };
    let mut records: Vec<CaptureRecord> = Vec::new();
    let mut pos: usize = FILE_HEADER_LEN;
    while pos < data.len()
        invariant
            24 <= pos <= data@.len(),
            order_of(data@) == Some(order),
            word_at(data@, 20, order) == LINK_TYPE_ETHERNET,
            unit == fraction_unit(data@),
            records_at(data@, 24, order, unit) == match records_at(
                data@,
                pos as int,
                order,
                unit,
            ) {
                Some(rest) => Some(record_views(records@) + rest),
                None => None,
            },
        decreases data@.len() - pos,
    {
        if data.len() - pos < RECORD_HEADER_LEN {
            return Err(CaptureFileError::TruncatedRecord);
        }
        let seconds = read_word(data, pos, order);
        let nanoseconds: u64 = read_word(data, pos + 4, order) as u64 * unit;
        let len: usize = read_word(data, pos + 8, order) as usize;
        if data.len() - pos - RECORD_HEADER_LEN < len {
            return Err(CaptureFileError::TruncatedRecord);
        }
        let mut bytes: Vec<u8> = Vec::new();
        append_range(&mut bytes, data, pos + 16, pos + 16 + len);
        records.push(CaptureRecord { seconds, nanoseconds, data: bytes });
        pos = pos + 16 + len;
    }
    Ok(records)
}

} // verus!
