//! The messages on the wire: which field carries what.
//!
//! A request is written field by field; a reply is read into its fields and
//! then merged, field by field, into the reply at hand. A field with an
//! unknown number is passed over. A known field of the wrong kind, or text
//! that is not UTF-8, fails the whole message: nothing is merged then.

use crate::api::{
    Error, ErrorView, PutRequest, PutRequestView, PutResponse, PutResponseView, RequestHeader,
    RequestHeaderView, ResponseHeader, ResponseHeaderView, Timestamp,
};
use crate::sender::SendError;
use crate::wire::{
    fields_of, parse_fields, put_bytes, put_int64, text_from_utf8, views, wire_bytes, wire_int64,
    Field, FieldValue, FieldView, ValueView,
};
use vstd::prelude::*;
use vstd::slice::slice_to_vec;
use vstd::utf8::*;

verus! {

pub const ERROR_MESSAGE: u32 = 1;

pub const TIMESTAMP_WALL_TIME: u32 = 1;

pub const TIMESTAMP_LOGICAL: u32 = 2;

pub const REQUEST_HEADER_KEY: u32 = 3;

pub const REQUEST_HEADER_USER: u32 = 5;

pub const REQUEST_HEADER_RAFT_ID: u32 = 7;

pub const RESPONSE_HEADER_ERROR: u32 = 1;

pub const RESPONSE_HEADER_TIMESTAMP: u32 = 2;

pub const PUT_REQUEST_HEADER: u32 = 1;

pub const PUT_REQUEST_VALUE: u32 = 2;

pub const VALUE_BYTES: u32 = 1;

pub const PUT_RESPONSE_HEADER: u32 = 1;

/// The bytes of an optional length-delimited field: nothing where it is unset.
pub open spec fn optional_bytes(number: u32, data: Option<Seq<u8>>) -> Seq<u8> {
    match data {
        Some(d) => wire_bytes(number, d),
        None => Seq::empty(),
    }
}

/// The bytes of an optional text field: its UTF-8 encoding, length-delimited.
pub open spec fn optional_text(number: u32, text: Option<Seq<char>>) -> Seq<u8> {
    match text {
        Some(t) => wire_bytes(number, encode_utf8(t)),
        None => Seq::empty(),
    }
}

/// The bytes of an optional `int64` field.
pub open spec fn optional_int64(number: u32, value: Option<i64>) -> Seq<u8> {
    match value {
        Some(v) => wire_int64(number, v),
        None => Seq::empty(),
    }
}

/// The wire form of a request header: key, user, raft id, each where set.
pub open spec fn request_header_bytes(h: RequestHeaderView) -> Seq<u8> {
    optional_bytes(REQUEST_HEADER_KEY, h.key) + optional_text(REQUEST_HEADER_USER, h.user)
        + optional_int64(REQUEST_HEADER_RAFT_ID, h.raft_id)
}

/// The wire form of the value of a Put: a message whose one field holds the
/// bytes.
pub open spec fn value_bytes(value: Option<Seq<u8>>) -> Seq<u8> {
    match value {
        Some(v) => wire_bytes(PUT_REQUEST_VALUE, wire_bytes(VALUE_BYTES, v)),
        None => Seq::empty(),
    }
}

/// The wire form of a Put request: the header as a nested message, then the
/// value.
pub open spec fn put_request_bytes(r: PutRequestView) -> Seq<u8> {
    wire_bytes(PUT_REQUEST_HEADER, request_header_bytes(r.header)) + value_bytes(r.value)
}

/// What is reported for a message that cannot be read and says nothing more.
pub open spec fn malformed_text() -> Seq<char> {
    "malformed message"@
}

/// What is reported for a known field that arrives as the wrong kind of value.
pub open spec fn unexpected_kind_text() -> Seq<char> {
    "unexpected wire type"@
}

/// What is reported for a text field whose bytes are not UTF-8.
pub open spec fn invalid_text_text() -> Seq<char> {
    "invalid UTF-8 sequence"@
}

/// What is reported for a failure of the outside reader or writer: what it
/// said of itself, or, where it said nothing, [`malformed_text`].
pub open spec fn failure_text(described: Seq<char>) -> Seq<char> {
    if described.len() == 0 {
        malformed_text()
    } else {
        described
    }
}

/// The failure that reports [`failure_text`] of `described`.
pub fn wire_failure(described: String) -> (r: SendError)
    ensures
        r.is_wire_failure(),
        r.wire_text() == failure_text(described@),
{
    if described.as_str().is_empty() {
        malformed()
    } else {
        SendError::WireError(described)
    }
}

/// The failure that reports [`malformed_text`].
pub fn malformed() -> (r: SendError)
    ensures
        r.is_wire_failure(),
        r.wire_text() == malformed_text(),
{
    proof {
        reveal_strlit("malformed message");
    }
    SendError::WireError("malformed message".to_owned())
}

/// The failure that reports [`unexpected_kind_text`].
pub fn unexpected_kind() -> (r: SendError)
    ensures
        r.is_wire_failure(),
        r.wire_text() == unexpected_kind_text(),
{
    proof {
        reveal_strlit("unexpected wire type");
    }
    SendError::WireError("unexpected wire type".to_owned())
}

/// The failure that reports [`invalid_text_text`].
pub fn invalid_text() -> (r: SendError)
    ensures
        r.is_wire_failure(),
        r.wire_text() == invalid_text_text(),
{
    proof {
        reveal_strlit("invalid UTF-8 sequence");
    }
    SendError::WireError("invalid UTF-8 sequence".to_owned())
}

/// Writes the header of a request: always, and exactly the bytes of
/// [`request_header_bytes`].
pub fn encode_request_header(h: &RequestHeader) -> (r: Result<Vec<u8>, SendError>)
    ensures
        r is Ok,
        r.unwrap()@ == request_header_bytes(h@),
{
    let mut out: Vec<u8> = Vec::new();
    if let Some(key) = &h.key {
        if let Err(text) = put_bytes(&mut out, REQUEST_HEADER_KEY, key.as_slice()) {
            return Err(wire_failure(text));
        }
    }
    if let Some(user) = &h.user {
        if let Err(text) = put_bytes(&mut out, REQUEST_HEADER_USER, user.as_str().as_bytes()) {
            return Err(wire_failure(text));
        }
    }
    if let Some(raft_id) = h.raft_id {
        if let Err(text) = put_int64(&mut out, REQUEST_HEADER_RAFT_ID, raft_id) {
            return Err(wire_failure(text));
        }
    }
    assert(out@ =~= request_header_bytes(h@));
    Ok(out)
}

/// Writes a Put request: always, and exactly the bytes of
/// [`put_request_bytes`].
pub fn encode_put_request(request: &PutRequest) -> (r: Result<Vec<u8>, SendError>)
    ensures
        r is Ok,
        r.unwrap()@ == put_request_bytes(request@),
{
    let header = encode_request_header(&request.header)?;
    let mut out: Vec<u8> = Vec::new();
    if let Err(text) = put_bytes(&mut out, PUT_REQUEST_HEADER, header.as_slice()) {
        return Err(wire_failure(text));
    }
    if let Some(value) = &request.value {
        let mut inner: Vec<u8> = Vec::new();
        if let Err(text) = put_bytes(&mut inner, VALUE_BYTES, value.as_slice()) {
            return Err(wire_failure(text));
        }
        if let Err(text) = put_bytes(&mut out, PUT_REQUEST_VALUE, inner.as_slice()) {
            return Err(wire_failure(text));
        }
    }
    assert(out@ =~= put_request_bytes(request@));
    Ok(out)
}

/// A varint read as `int64`: the same 64 bits, in two's complement.
pub open spec fn as_int64(v: u64) -> i64 {
    if v <= 0x7fff_ffff_ffff_ffff {
        v as i64
    } else {
        (v - 0x1_0000_0000_0000_0000) as i64
    }
}

/// A varint read as `int32`: its low 32 bits, in two's complement.
pub open spec fn as_int32(v: u64) -> i32 {
    let low = v % 0x1_0000_0000;
    if low <= 0x7fff_ffff {
        low as i32
    } else {
        (low - 0x1_0000_0000) as i32
    }
}

/// Computes [`as_int64`].
pub fn int64_of(v: u64) -> (r: i64)
    ensures
        r == as_int64(v),
{
    if v <= 0x7fff_ffff_ffff_ffff {
        v as i64
    } else {
        let high: u64 = v - 0x8000_0000_0000_0000;
        (high as i64) - 0x7fff_ffff_ffff_ffff - 1
    }
}

/// Computes [`as_int32`].
pub fn int32_of(v: u64) -> (r: i32)
    ensures
        r == as_int32(v),
{
    let low: u64 = v % 0x1_0000_0000;
    if low <= 0x7fff_ffff {
        low as i32
    } else {
        let high: u64 = low - 0x8000_0000;
        (high as i32) - 0x7fff_ffff - 1
    }
}

/// An error after one field: the message field replaces the message, any
/// other field changes nothing. A message field that is no text fails.
pub open spec fn error_after(e: ErrorView, f: FieldView) -> Result<ErrorView, Seq<char>> {
    if f.number == ERROR_MESSAGE {
        match f.value {
            ValueView::Bytes(b) => if valid_utf8(b) {
                Ok(ErrorView::with_message(decode_utf8(b)))
            } else {
                Err(invalid_text_text())
            },
            _ => Err(unexpected_kind_text()),
        }
    } else {
        Ok(e)
    }
}

/// An error after a run of fields, first to last, or what the first field
/// that fails reports.
pub open spec fn error_merged(e: ErrorView, fields: Seq<FieldView>) -> Result<
    ErrorView,
    Seq<char>,
>
    decreases fields.len(),
{
    if fields.len() == 0 {
        Ok(e)
    } else {
        match error_after(e, fields[0]) {
            Ok(next) => error_merged(next, fields.skip(1)),
            Err(text) => Err(text),
        }
    }
}

/// A timestamp after one field.
pub open spec fn timestamp_after(t: Timestamp, f: FieldView) -> Result<Timestamp, Seq<char>> {
    if f.number == TIMESTAMP_WALL_TIME {
        match f.value {
            ValueView::Varint(v) => Ok(Timestamp { wall_time: Some(as_int64(v)), ..t }),
            _ => Err(unexpected_kind_text()),
        }
    } else if f.number == TIMESTAMP_LOGICAL {
        match f.value {
            ValueView::Varint(v) => Ok(Timestamp { logical: Some(as_int32(v)), ..t }),
            _ => Err(unexpected_kind_text()),
        }
    } else {
        Ok(t)
    }
}

/// A timestamp after a run of fields, first to last, or what the first field
/// that fails reports.
pub open spec fn timestamp_merged(t: Timestamp, fields: Seq<FieldView>) -> Result<
    Timestamp,
    Seq<char>,
>
    decreases fields.len(),
{
    if fields.len() == 0 {
        Ok(t)
    } else {
        match timestamp_after(t, fields[0]) {
            Ok(next) => timestamp_merged(next, fields.skip(1)),
            Err(text) => Err(text),
        }
    }
}

/// The error of a header, or the zero error where none is set.
pub open spec fn error_or_zero(e: Option<ErrorView>) -> ErrorView {
    match e {
        Some(e) => e,
        None => ErrorView::zero(),
    }
}

/// The timestamp of a header, or the zero timestamp where none is set.
pub open spec fn timestamp_or_zero(t: Option<Timestamp>) -> Timestamp {
    match t {
        Some(t) => t,
        None => Timestamp::zero(),
    }
}

/// The error of a header after a nested message was merged into it.
pub open spec fn nested_error(e: Option<ErrorView>, b: Seq<u8>) -> Result<ErrorView, Seq<char>> {
    match fields_of(b) {
        Ok(fields) => error_merged(error_or_zero(e), fields),
        Err(described) => Err(failure_text(described)),
    }
}

/// The timestamp of a header after a nested message was merged into it.
pub open spec fn nested_timestamp(t: Option<Timestamp>, b: Seq<u8>) -> Result<
    Timestamp,
    Seq<char>,
> {
    match fields_of(b) {
        Ok(fields) => timestamp_merged(timestamp_or_zero(t), fields),
        Err(described) => Err(failure_text(described)),
    }
}

/// A reply header after one field: the error and the timestamp are nested
/// messages, merged into what the header holds.
pub open spec fn header_after(h: ResponseHeaderView, f: FieldView) -> Result<
    ResponseHeaderView,
    Seq<char>,
> {
    if f.number == RESPONSE_HEADER_ERROR {
        match f.value {
            ValueView::Bytes(b) => match nested_error(h.error, b) {
                Ok(e) => Ok(ResponseHeaderView { error: Some(e), ..h }),
                Err(text) => Err(text),
            },
            _ => Err(unexpected_kind_text()),
        }
    } else if f.number == RESPONSE_HEADER_TIMESTAMP {
        match f.value {
            ValueView::Bytes(b) => match nested_timestamp(h.timestamp, b) {
                Ok(t) => Ok(ResponseHeaderView { timestamp: Some(t), ..h }),
                Err(text) => Err(text),
            },
            _ => Err(unexpected_kind_text()),
        }
    } else {
        Ok(h)
    }
}

/// A reply header after a run of fields, first to last, or what the first
/// field that fails reports.
pub open spec fn header_merged(h: ResponseHeaderView, fields: Seq<FieldView>) -> Result<
    ResponseHeaderView,
    Seq<char>,
>
    decreases fields.len(),
{
    if fields.len() == 0 {
        Ok(h)
    } else {
        match header_after(h, fields[0]) {
            Ok(next) => header_merged(next, fields.skip(1)),
            Err(text) => Err(text),
        }
    }
}

/// A header after a nested message was merged into it.
pub open spec fn nested_header(h: ResponseHeaderView, b: Seq<u8>) -> Result<
    ResponseHeaderView,
    Seq<char>,
> {
    match fields_of(b) {
        Ok(fields) => header_merged(h, fields),
        Err(described) => Err(failure_text(described)),
    }
}

/// A Put reply after one field.
pub open spec fn reply_after(r: PutResponseView, f: FieldView) -> Result<
    PutResponseView,
    Seq<char>,
> {
    if f.number == PUT_RESPONSE_HEADER {
        match f.value {
            ValueView::Bytes(b) => match nested_header(r.header, b) {
                Ok(h) => Ok(PutResponseView { header: h }),
                Err(text) => Err(text),
            },
            _ => Err(unexpected_kind_text()),
        }
    } else {
        Ok(r)
    }
}

/// A Put reply after a run of fields, first to last, or what the first field
/// that fails reports.
pub open spec fn reply_merged(r: PutResponseView, fields: Seq<FieldView>) -> Result<
    PutResponseView,
    Seq<char>,
>
    decreases fields.len(),
{
    if fields.len() == 0 {
        Ok(r)
    } else {
        match reply_after(r, fields[0]) {
            Ok(next) => reply_merged(next, fields.skip(1)),
            Err(text) => Err(text),
        }
    }
}

/// What a reply becomes when `body` is merged into it, or, where the body
/// cannot be decoded as a Put reply, what is reported of that: the reader's
/// own description of a field that it cannot read, and this library's text
/// for a known field of the wrong kind or a message that is no text.
pub open spec fn reply_decoded(r: PutResponseView, body: Seq<u8>) -> Result<
    PutResponseView,
    Seq<char>,
> {
    match fields_of(body) {
        Ok(fields) => reply_merged(r, fields),
        Err(described) => Err(failure_text(described)),
    }
}

/// Merges one field into an error.
pub fn merge_error_field(e: Error, field: &Field) -> (r: Result<Error, SendError>)
    ensures
        match r {
            Ok(next) => error_after(e@, field@) == Ok::<ErrorView, Seq<char>>(next@),
            Err(failure) => failure.is_wire_failure() && error_after(e@, field@) == Err::<
                ErrorView,
                Seq<char>,
            >(failure.wire_text()),
        },
{
    if field.number == ERROR_MESSAGE {
        match &field.value {
            FieldValue::Bytes(b) => {
                let copy = slice_to_vec(b.as_slice());
                match text_from_utf8(copy) {
                    Some(text) => Ok(Error { message: Some(text) }),
                    None => Err(invalid_text()),
                }
            },
            _ => Err(unexpected_kind()),
        }
    } else {
        Ok(e)
    }
}

/// Merges a run of fields into an error.
pub fn merge_error(e: Error, fields: &Vec<Field>) -> (r: Result<Error, SendError>)
    ensures
        match r {
            Ok(next) => error_merged(e@, views(fields@)) == Ok::<ErrorView, Seq<char>>(next@),
            Err(failure) => failure.is_wire_failure() && error_merged(e@, views(fields@)) == Err::<
                ErrorView,
                Seq<char>,
            >(failure.wire_text()),
        },
{
    let ghost all = views(fields@);
    let ghost start = e@;
    let mut acc = e;
    let mut i: usize = 0;
    assert(all.skip(0) =~= all);
    while i < fields.len()
        invariant
            i <= fields.len(),
            all == views(fields@),
            start == e@,
            error_merged(start, all) == error_merged(acc@, all.skip(i as int)),
        decreases fields.len() - i,
    {
        assert(all.skip(i as int)[0] == fields@[i as int]@);
        assert(all.skip(i as int).skip(1) =~= all.skip(i + 1));
        match merge_error_field(acc, &fields[i]) {
            Ok(next) => {
                acc = next;
            },
            Err(failure) => {
                return Err(failure);
            },
        }
        i = i + 1;
    }
    Ok(acc)
}

/// Merges one field into a timestamp.
pub fn merge_timestamp_field(t: Timestamp, field: &Field) -> (r: Result<Timestamp, SendError>)
    ensures
        match r {
            Ok(next) => timestamp_after(t, field@) == Ok::<Timestamp, Seq<char>>(next),
            Err(failure) => failure.is_wire_failure() && timestamp_after(t, field@) == Err::<
                Timestamp,
                Seq<char>,
            >(failure.wire_text()),
        },
{
    if field.number == TIMESTAMP_WALL_TIME {
        match &field.value {
            FieldValue::Varint(v) => Ok(
                Timestamp { wall_time: Some(int64_of(*v)), logical: t.logical },
            ),
            _ => Err(unexpected_kind()),
        }
    } else if field.number == TIMESTAMP_LOGICAL {
        match &field.value {
            FieldValue::Varint(v) => Ok(
                Timestamp { wall_time: t.wall_time, logical: Some(int32_of(*v)) },
            ),
            _ => Err(unexpected_kind()),
        }
    } else {
        Ok(t)
    }
}

/// Merges a run of fields into a timestamp.
pub fn merge_timestamp(t: Timestamp, fields: &Vec<Field>) -> (r: Result<Timestamp, SendError>)
    ensures
        match r {
            Ok(next) => timestamp_merged(t, views(fields@)) == Ok::<Timestamp, Seq<char>>(next),
            Err(failure) => failure.is_wire_failure() && timestamp_merged(t, views(fields@))
                == Err::<Timestamp, Seq<char>>(failure.wire_text()),
        },
{
    let ghost all = views(fields@);
    let mut acc = t;
    let mut i: usize = 0;
    assert(all.skip(0) =~= all);
    while i < fields.len()
        invariant
            i <= fields.len(),
            all == views(fields@),
            timestamp_merged(t, all) == timestamp_merged(acc, all.skip(i as int)),
        decreases fields.len() - i,
    {
        assert(all.skip(i as int)[0] == fields@[i as int]@);
        assert(all.skip(i as int).skip(1) =~= all.skip(i + 1));
        match merge_timestamp_field(acc, &fields[i]) {
            Ok(next) => {
                acc = next;
            },
            Err(failure) => {
                return Err(failure);
            },
        }
        i = i + 1;
    }
    Ok(acc)
}

/// Merges one field into a reply header.
pub fn merge_header_field(h: ResponseHeader, field: &Field) -> (r: Result<
    ResponseHeader,
    SendError,
>)
    ensures
        match r {
            Ok(next) => header_after(h@, field@) == Ok::<ResponseHeaderView, Seq<char>>(next@),
            Err(failure) => failure.is_wire_failure() && header_after(h@, field@) == Err::<
                ResponseHeaderView,
                Seq<char>,
            >(failure.wire_text()),
        },
{
    if field.number == RESPONSE_HEADER_ERROR {
        match &field.value {
            FieldValue::Bytes(b) => {
                let nested = match parse_fields(b.as_slice()) {
                    Ok(nested) => nested,
                    Err(described) => {
                        return Err(wire_failure(described));
                    },
                };
                let ResponseHeader { error, timestamp } = h;
                let start = match error {
                    Some(e) => e,
                    None => Error::new(),
                };
                let merged = merge_error(start, &nested)?;
                Ok(ResponseHeader { error: Some(merged), timestamp })
            },
            _ => Err(unexpected_kind()),
        }
    } else if field.number == RESPONSE_HEADER_TIMESTAMP {
        match &field.value {
            FieldValue::Bytes(b) => {
                let nested = match parse_fields(b.as_slice()) {
                    Ok(nested) => nested,
                    Err(described) => {
                        return Err(wire_failure(described));
                    },
                };
                let ResponseHeader { error, timestamp } = h;
                let start = match timestamp {
                    Some(t) => t,
                    None => Timestamp::new(),
                };
                let merged = merge_timestamp(start, &nested)?;
                Ok(ResponseHeader { error, timestamp: Some(merged) })
            },
            _ => Err(unexpected_kind()),
        }
    } else {
        Ok(h)
    }
}

/// Merges a run of fields into a reply header.
pub fn merge_header(h: ResponseHeader, fields: &Vec<Field>) -> (r: Result<
    ResponseHeader,
    SendError,
>)
    ensures
        match r {
            Ok(next) => header_merged(h@, views(fields@)) == Ok::<ResponseHeaderView, Seq<char>>(
                next@,
            ),
            Err(failure) => failure.is_wire_failure() && header_merged(h@, views(fields@))
                == Err::<ResponseHeaderView, Seq<char>>(failure.wire_text()),
        },
{
    let ghost all = views(fields@);
    let ghost start = h@;
    let mut acc = h;
    let mut i: usize = 0;
    assert(all.skip(0) =~= all);
    while i < fields.len()
        invariant
            i <= fields.len(),
            all == views(fields@),
            start == h@,
            header_merged(start, all) == header_merged(acc@, all.skip(i as int)),
        decreases fields.len() - i,
    {
        assert(all.skip(i as int)[0] == fields@[i as int]@);
        assert(all.skip(i as int).skip(1) =~= all.skip(i + 1));
        match merge_header_field(acc, &fields[i]) {
            Ok(next) => {
                acc = next;
            },
            Err(failure) => {
                return Err(failure);
            },
        }
        i = i + 1;
    }
    Ok(acc)
}

/// Merges one field into a Put reply.
pub fn merge_reply_field(reply: PutResponse, field: &Field) -> (r: Result<PutResponse, SendError>)
    ensures
        match r {
            Ok(next) => reply_after(reply@, field@) == Ok::<PutResponseView, Seq<char>>(next@),
            Err(failure) => failure.is_wire_failure() && reply_after(reply@, field@) == Err::<
                PutResponseView,
                Seq<char>,
            >(failure.wire_text()),
        },
{
    if field.number == PUT_RESPONSE_HEADER {
        match &field.value {
            FieldValue::Bytes(b) => {
                let nested = match parse_fields(b.as_slice()) {
                    Ok(nested) => nested,
                    Err(described) => {
                        return Err(wire_failure(described));
                    },
                };
                let PutResponse { header } = reply;
                let merged = merge_header(header, &nested)?;
                Ok(PutResponse { header: merged })
            },
            _ => Err(unexpected_kind()),
        }
    } else {
        Ok(reply)
    }
}

/// Merges a run of fields into a Put reply.
pub fn merge_reply(reply: PutResponse, fields: &Vec<Field>) -> (r: Result<PutResponse, SendError>)
    ensures
        match r {
            Ok(next) => reply_merged(reply@, views(fields@)) == Ok::<PutResponseView, Seq<char>>(
                next@,
            ),
            Err(failure) => failure.is_wire_failure() && reply_merged(reply@, views(fields@))
                == Err::<PutResponseView, Seq<char>>(failure.wire_text()),
        },
{
    let ghost all = views(fields@);
    let ghost start = reply@;
    let mut acc = reply;
    let mut i: usize = 0;
    assert(all.skip(0) =~= all);
    while i < fields.len()
        invariant
            i <= fields.len(),
            all == views(fields@),
            start == reply@,
            reply_merged(start, all) == reply_merged(acc@, all.skip(i as int)),
        decreases fields.len() - i,
    {
        assert(all.skip(i as int)[0] == fields@[i as int]@);
        assert(all.skip(i as int).skip(1) =~= all.skip(i + 1));
        match merge_reply_field(acc, &fields[i]) {
            Ok(next) => {
                acc = next;
            },
            Err(failure) => {
                return Err(failure);
            },
        }
        i = i + 1;
    }
    Ok(acc)
}

/// Decodes `body` as a Put reply and merges it into a copy of `reply`. The
/// result is that of [`reply_decoded`]: the merged reply, or a failure that
/// carries exactly the text that it gives, which is never empty. `reply`
/// itself is never touched.
pub fn decode_put_response(reply: &PutResponse, body: &[u8]) -> (r: Result<PutResponse, SendError>)
    ensures
        match r {
            Ok(next) => reply_decoded(reply@, body@) == Ok::<PutResponseView, Seq<char>>(next@),
            Err(failure) => failure.is_wire_failure() && reply_decoded(reply@, body@) == Err::<
                PutResponseView,
                Seq<char>,
            >(failure.wire_text()),
        },
{
    let fields = match parse_fields(body) {
        Ok(fields) => fields,
        Err(described) => {
            return Err(wire_failure(described));
        },
    };
    merge_reply(reply.duplicate(), &fields)
}

} // verus!
