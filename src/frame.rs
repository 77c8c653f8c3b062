//! Frames: one timestamped, path-tagged record as it travels on the wire.
//!
//! Layout: `timestamp: u128 ‖ path_len: u16 ‖ path ‖ tag: u16 ‖ payload`, all
//! integers little-endian. The payload carries no length of its own: the tag
//! fixes it, or (for a mesh blob) it runs to the end of the frame.
use vstd::prelude::*;
use vstd::string::StringSliceAdditionalSpecFns;
use vstd::utf8::{decode_utf8, encode_utf8_decode_utf8, encode_utf8_valid_utf8, valid_utf8};

use crate::bytes::{
    le_u128, le_u16, lemma_u128_round_trip, lemma_u16_round_trip, push_bytes, push_u128,
    push_u16, read_u128, read_u16, u128_from_le, u16_from_le,
};
use crate::codec::{decode_payload, lemma_record_round_trip, LoggableData, Record, RecordView};

verus! {

/// The longest path that fits the 16-bit length field.
pub const MAX_PATH_LEN: usize = 65535;

/// Why a frame could not be built.
#[derive(PartialEq, Eq, Structural, Debug, Clone, Copy)]
pub enum FrameError {
    /// The path holds more than 65535 bytes.
    PathTooLong,
}

/// Why bytes could not be read as a frame.
#[derive(PartialEq, Eq, Structural, Debug, Clone, Copy)]
pub enum DecodeError {
    /// The bytes end inside the header or the path.
    Truncated,
    /// The path is not valid UTF-8.
    EncodingError,
    /// The tag is unknown, or the payload does not fit the tag's layout.
    BadRecord,
}

/// The bytes of a frame.
pub open spec fn frame_bytes(timestamp: u128, path: Seq<u8>, tag: u16, payload: Seq<u8>) -> Seq<
    u8,
> {
    le_u128(timestamp) + le_u16(path.len() as u16) + path + le_u16(tag) + payload
}

/// What a frame carries.
pub struct FrameView {
    pub timestamp: u128,
    pub path: Seq<char>,
    pub record: RecordView,
}

/// The frame that `b` holds, or why it holds none.
pub open spec fn parse_spec(b: Seq<u8>) -> Result<FrameView, DecodeError> {
    if b.len() < 18 {
        Err(DecodeError::Truncated)
    } else {
        let n = u16_from_le(b.subrange(16, 18)) as int;
        if b.len() < 20 + n {
            Err(DecodeError::Truncated)
        } else if !valid_utf8(b.subrange(18, 18 + n)) {
            Err(DecodeError::EncodingError)
        } else {
            let tag = u16_from_le(b.subrange(18 + n, 20 + n));
            match decode_payload(tag, b.subrange(20 + n, b.len() as int)) {
                None => Err(DecodeError::BadRecord),
                Some(record) => Ok(
                    FrameView {
                        timestamp: u128_from_le(b.subrange(0, 16)),
                        path: decode_utf8(b.subrange(18, 18 + n)),
                        record,
                    },
                ),
            }
        }
    }
}

/// A decoded frame.
pub struct Frame {
    pub timestamp: u128,
    pub path: String,
    pub record: Record,
}

impl View for Frame {
    type V = FrameView;

    open spec fn view(&self) -> FrameView {
        FrameView { timestamp: self.timestamp, path: self.path@, record: self.record@ }
    }
}

/// Builds the frame for `record` logged under `path` at `timestamp`.
pub fn build_frame<T: LoggableData>(timestamp: u128, path: &str, record: &T) -> (r: Result<
    Vec<u8>,
    FrameError,
>)
    ensures
        r is Ok <==> path.spec_bytes().len() <= MAX_PATH_LEN,
        r matches Ok(f) ==> f@ == frame_bytes(
            timestamp,
            path.spec_bytes(),
            record.tag(),
            record.encoding(),
        ),
        r matches Err(e) ==> e == FrameError::PathTooLong,
{
    let path_bytes = path.as_bytes();
    let len = path_bytes.len();
    if len > MAX_PATH_LEN {
        return Err(FrameError::PathTooLong);
    }
    let size = record.size();
    let mut vec: Vec<u8> = Vec::with_capacity(size.saturating_add(20 + len));
    push_u128(&mut vec, timestamp);
    push_u16(&mut vec, len as u16);
    push_bytes(&mut vec, path_bytes);
    push_u16(&mut vec, record.type_tag());
    record.extend_from_bytes(&mut vec);
    Ok(vec)
}

/// Relies on `String::from_utf8`: it succeeds exactly on valid UTF-8, and the
/// string then holds the characters that the bytes encode.
#[verifier::external_body]
fn string_from_utf8(bytes: Vec<u8>) -> (r: Option<String>)
    ensures
        r is Some <==> valid_utf8(bytes@),
        r matches Some(s) ==> s@ == decode_utf8(bytes@),
{
    String::from_utf8(bytes).ok()
}

/// Reads one frame from `b`.
pub fn parse_frame(b: &[u8]) -> (r: Result<Frame, DecodeError>)
    ensures
        match r {
            Ok(f) => parse_spec(b@) == Ok::<FrameView, DecodeError>(f@),
            Err(e) => parse_spec(b@) == Err::<FrameView, DecodeError>(e),
        },
{
    let len = b.len();
    if len < 18 {
        return Err(DecodeError::Truncated);
    }
    let n = read_u16(b, 16) as usize;
    if len < 20 + n {
        return Err(DecodeError::Truncated);
    }
    let mut path_bytes: Vec<u8> = Vec::new();
    push_bytes(&mut path_bytes, slice_range(b, 18, 18 + n));
    let path = match string_from_utf8(path_bytes) {
        Some(s) => s,
        None => {
            return Err(DecodeError::EncodingError);
        },
    };
    let tag = read_u16(b, 18 + n);
    let record = match Record::decode(tag, slice_range(b, 20 + n, len)) {
        Some(rec) => rec,
        None => {
            return Err(DecodeError::BadRecord);
        },
    };
    let timestamp = read_u128(b, 0);
    Ok(Frame { timestamp, path, record })
}

/// The bytes of `b` from `start` up to `end`.
fn slice_range(b: &[u8], start: usize, end: usize) -> (r: &[u8])
    requires
        start <= end <= b@.len(),
    ensures
        r@ == b@.subrange(start as int, end as int),
{
    vstd::slice::slice_subrange(b, start, end)
}

/// A frame built from a record reads back as that timestamp, path and
/// record; its path-length field holds the path's length in bytes.
pub proof fn lemma_frame_round_trip(timestamp: u128, path: &str, record: &Record)
    requires
        path.spec_bytes().len() <= MAX_PATH_LEN,
    ensures
        ({
            let f = frame_bytes(timestamp, path.spec_bytes(), record.tag(), record.encoding());
            &&& u16_from_le(f.subrange(16, 18)) == path.spec_bytes().len()
            &&& parse_spec(f) == Ok::<FrameView, DecodeError>(
                FrameView { timestamp, path: path@, record: record@ },
            )
        }),
{
    let p = path.spec_bytes();
    let n = p.len() as int;
    let f = frame_bytes(timestamp, p, record.tag(), record.encoding());
    lemma_u128_round_trip(timestamp);
    lemma_u16_round_trip(n as u16);
    lemma_u16_round_trip(record.tag());
    lemma_record_round_trip(record);
    encode_utf8_valid_utf8(path@);
    encode_utf8_decode_utf8(path@);
    assert(f.subrange(0, 16) =~= le_u128(timestamp));
    assert(f.subrange(16, 18) =~= le_u16(n as u16));
    assert(f.subrange(18, 18 + n) =~= p);
    assert(f.subrange(18 + n, 20 + n) =~= le_u16(record.tag()));
    assert(f.subrange(20 + n, f.len() as int) =~= record.encoding());
    assert(u128_from_le(f.subrange(0, 16)) == u128_from_le(le_u128(timestamp)));
}

} // verus!
