//! Wire-level fields, read and written by the `protobuf` crate.
//!
//! The byte layout of a single field is the `protobuf` crate's business: the
//! functions in the first half of this file call it and give its results a
//! name. Everything after them is proved from those contracts.

use vstd::prelude::*;
use vstd::slice::slice_subrange;
use vstd::utf8::*;

verus! {

/// Largest field number that the wire format admits.
pub const MAX_FIELD_NUMBER: u32 = 0x1fff_ffff;

/// The payload of one field as it was found on the wire.
#[derive(Debug)]
pub enum FieldValue {
    Varint(u64),
    Fixed64(u64),
    Bytes(Vec<u8>),
    Fixed32(u32),
}

/// One field of a message: its number and its payload.
#[derive(Debug)]
pub struct Field {
    pub number: u32,
    pub value: FieldValue,
}

/// Mathematical model of a [`FieldValue`].
pub enum ValueView {
    Varint(u64),
    Fixed64(u64),
    Bytes(Seq<u8>),
    Fixed32(u32),
}

/// Mathematical model of a [`Field`].
pub struct FieldView {
    pub number: u32,
    pub value: ValueView,
}

impl View for FieldValue {
    type V = ValueView;

    open spec fn view(&self) -> ValueView {
        match *self {
            FieldValue::Varint(v) => ValueView::Varint(v),
            FieldValue::Fixed64(v) => ValueView::Fixed64(v),
            FieldValue::Bytes(b) => ValueView::Bytes(b@),
            FieldValue::Fixed32(v) => ValueView::Fixed32(v),
        }
    }
}

impl View for Field {
    type V = FieldView;

    open spec fn view(&self) -> FieldView {
        FieldView { number: self.number, value: self.value@ }
    }
}

/// The bytes that `protobuf` writes for a length-delimited field with this
/// number and this payload.
pub uninterp spec fn wire_bytes(number: u32, data: Seq<u8>) -> Seq<u8>;

/// The bytes that `protobuf` writes for an `int64` field with this number and
/// this value.
pub uninterp spec fn wire_int64(number: u32, value: i64) -> Seq<u8>;

/// What `protobuf` reads at the front of `bytes`: the first field and the
/// number of bytes it occupies, or the text of the failure that it reports.
pub uninterp spec fn wire_field(bytes: Seq<u8>) -> Result<(FieldView, nat), Seq<char>>;

/// Calls `protobuf::CodedOutputStream::write_bytes` on a stream over `out`,
/// then `flush`; a failure is handed back as its `to_string`. Trusted: over
/// a `Vec` the writer has no failing path, and `out` grows by exactly the
/// bytes named [`wire_bytes`]. The field number is kept in the range outside
/// of which the crate panics.
#[verifier::external_body]
pub(crate) fn put_bytes(out: &mut Vec<u8>, number: u32, data: &[u8]) -> (r: Result<(), String>)
    requires
        1 <= number <= MAX_FIELD_NUMBER,
    ensures
        r is Ok,
        final(out)@ == old(out)@ + wire_bytes(number, data@),
{
    let mut output = protobuf::CodedOutputStream::vec(out);
    if let Err(failure) = output.write_bytes(number, data) {
        return Err(failure.to_string());
    }
    match output.flush() {
        Ok(done) => Ok(done),
        Err(failure) => Err(failure.to_string()),
    }
}

/// Calls `protobuf::CodedOutputStream::write_int64` on a stream over `out`,
/// then `flush`; a failure is handed back as its `to_string`. Trusted: over
/// a `Vec` the writer has no failing path, and `out` grows by exactly the
/// bytes named [`wire_int64`].
#[verifier::external_body]
pub(crate) fn put_int64(out: &mut Vec<u8>, number: u32, value: i64) -> (r: Result<(), String>)
    requires
        1 <= number <= MAX_FIELD_NUMBER,
    ensures
        r is Ok,
        final(out)@ == old(out)@ + wire_int64(number, value),
{
    let mut output = protobuf::CodedOutputStream::vec(out);
    if let Err(failure) = output.write_int64(number, value) {
        return Err(failure.to_string());
    }
    match output.flush() {
        Ok(done) => Ok(done),
        Err(failure) => Err(failure.to_string()),
    }
}

/// Calls `protobuf::CodedInputStream::read_tag_unpack` and then
/// `read_unknown` on a stream over `bytes`, and reports the stream's `pos`;
/// a failure of either is handed back as its `to_string`. Trusted: the
/// outcome is the one named [`wire_field`], and a field that was read took
/// at least its tag byte and no more than the input.
#[verifier::external_body]
pub(crate) fn read_field(bytes: &[u8]) -> (r: Result<(Field, usize), String>)
    ensures
        match r {
            Ok((field, used)) => wire_field(bytes@) == Ok::<(FieldView, nat), Seq<char>>(
                (field@, used as nat),
            ) && 1 <= used <= bytes@.len(),
            Err(text) => wire_field(bytes@) == Err::<(FieldView, nat), Seq<char>>(text@),
        },
{
    let mut input = protobuf::CodedInputStream::from_bytes(bytes);
    let (number, kind) = match input.read_tag_unpack() {
        Ok(tag) => tag,
        Err(failure) => return Err(failure.to_string()),
    };
    let value = match input.read_unknown(kind) {
        Ok(protobuf::UnknownValue::Fixed32(v)) => FieldValue::Fixed32(v),
        Ok(protobuf::UnknownValue::Fixed64(v)) => FieldValue::Fixed64(v),
        Ok(protobuf::UnknownValue::Varint(v)) => FieldValue::Varint(v),
        Ok(protobuf::UnknownValue::LengthDelimited(v)) => FieldValue::Bytes(v),
        Err(failure) => return Err(failure.to_string()),
    };
    Ok((Field { number, value }, input.pos() as usize))
}

/// Calls `String::from_utf8`. Trusted: a `String` comes back exactly for valid
/// UTF-8, and holds the characters that the bytes encode.
#[verifier::external_body]
pub(crate) fn text_from_utf8(bytes: Vec<u8>) -> (r: Option<String>)
    ensures
        r is Some <==> valid_utf8(bytes@),
        r is Some ==> r.unwrap()@ == decode_utf8(bytes@),
{
    String::from_utf8(bytes).ok()
}

/// Puts `head` in front of the fields that follow, where those were read.
pub open spec fn prepend(head: Seq<FieldView>, tail: Result<Seq<FieldView>, Seq<char>>) -> Result<
    Seq<FieldView>,
    Seq<char>,
> {
    match tail {
        Ok(t) => Ok(head + t),
        Err(text) => Err(text),
    }
}

/// The fields that `bytes` hold, in order, or the text of the first failure
/// where some field cannot be read. An empty input holds no field.
pub open spec fn fields_of(bytes: Seq<u8>) -> Result<Seq<FieldView>, Seq<char>>
    decreases bytes.len(),
{
    if bytes.len() == 0 {
        Ok(Seq::empty())
    } else {
        match wire_field(bytes) {
            Ok((field, used)) => if 1 <= used <= bytes.len() {
                prepend(seq![field], fields_of(bytes.skip(used as int)))
            } else {
                Err(Seq::empty())
            },
            Err(text) => Err(text),
        }
    }
}

/// The models of a sequence of fields.
pub open spec fn views(fields: Seq<Field>) -> Seq<FieldView> {
    fields.map_values(|f: Field| f@)
}

/// Reads every field of `bytes`: the fields of [`fields_of`], or the text of
/// its failure.
pub fn parse_fields(bytes: &[u8]) -> (r: Result<Vec<Field>, String>)
    ensures
        match r {
            Ok(fields) => fields_of(bytes@) == Ok::<Seq<FieldView>, Seq<char>>(views(fields@)),
            Err(text) => fields_of(bytes@) == Err::<Seq<FieldView>, Seq<char>>(text@),
        },
{
    let mut fields: Vec<Field> = Vec::new();
    let mut pos: usize = 0;
    proof {
        assert(bytes@.skip(0) =~= bytes@);
        assert(views(fields@) =~= Seq::<FieldView>::empty());
        if let Ok(all) = fields_of(bytes@) {
            assert(Seq::<FieldView>::empty() + all =~= all);
        }
    }
    while pos < bytes.len()
        invariant
            pos <= bytes@.len(),
            fields_of(bytes@) == prepend(views(fields@), fields_of(bytes@.skip(pos as int))),
        decreases bytes@.len() - pos,
    {
        let rest = slice_subrange(bytes, pos, bytes.len());
        assert(rest@ == bytes@.skip(pos as int));
        match read_field(rest) {
            Ok((field, used)) => {
                proof {
                    assert(bytes@.skip(pos as int).skip(used as int) =~= bytes@.skip(
                        pos + used as int,
                    ));
                    assert(views(fields@.push(field)) =~= views(fields@) + seq![field@]);
                    if let Ok(tail) = fields_of(bytes@.skip(pos + used as int)) {
                        assert(views(fields@) + (seq![field@] + tail) =~= (views(fields@)
                            + seq![field@]) + tail);
                    }
                }
                fields.push(field);
                pos = pos + used;
            },
            Err(text) => {
                return Err(text);
            },
        }
    }
    proof {
        assert(bytes@.skip(pos as int).len() == 0);
        assert(views(fields@) + Seq::<FieldView>::empty() =~= views(fields@));
    }
    Ok(fields)
}

} // verus!
