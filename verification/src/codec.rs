//! The payload codec: from a datagram to a reading, and from a reading to the
//! JSON text that is published.

use vstd::prelude::*;
use vstd::string::StringSliceAdditionalSpecFns;
use vstd::utf8::*;
use crate::common::{JsonData, Reading};
use crate::error::CodecError;
use crate::fields::{
    classified, classify, entries, joined, lemma_members_round_trip, members, members_of, render,
    rendered, Fields, FieldsView,
};
use crate::framing::{
    lemma_trimmed_unchanged, lemma_unpadded_padded, padding, trim, trimmed, unpad, unpadded,
};
use crate::json::{lookup, model, parse, parsed, Json};

verus! {

/// `core::str::Utf8Error`, carried from a failed call to the place that
/// turns it into an error of the library.
#[verifier::external_type_specification]
#[verifier::external_body]
pub struct ExUtf8Error(core::str::Utf8Error);

/// Calls `core::str::from_utf8`. Trusted: the call succeeds exactly on valid
/// UTF-8, and the text it then returns is made of the bytes it was given.
#[verifier::external_body]
fn text_of(bytes: &[u8]) -> (outcome: Result<&str, core::str::Utf8Error>)
    ensures
        outcome is Ok <==> valid_utf8(bytes@),
        outcome matches Ok(text) ==> text.spec_bytes() == bytes@,
{
    core::str::from_utf8(bytes)
}

/// The string under a name, where there is a member of that name and it is
/// a string.
pub open spec fn text_in(members: Map<Seq<char>, Json>, name: Seq<char>) -> Option<Seq<char>> {
    if members.contains_key(name) {
        match members[name] {
            Json::Text(text) => Some(text),
            _ => None,
        }
    } else {
        None
    }
}

/// The integer under a name, where there is a member of that name and it is
/// an integer of 64 signed bits.
pub open spec fn integer_in(members: Map<Seq<char>, Json>, name: Seq<char>) -> Option<i64> {
    if members.contains_key(name) {
        match members[name] {
            Json::Integer(number) => Some(number),
            _ => None,
        }
    } else {
        None
    }
}

/// The members of a JSON value, or none for a value that is no object.
pub open spec fn members_in(value: Json) -> Map<Seq<char>, Json> {
    match value {
        Json::Object(members) => members,
        _ => Map::empty(),
    }
}

/// The known members of a JSON value.
pub open spec fn fields_of(value: Json) -> FieldsView {
    let members = members_in(value);
    FieldsView {
        source: text_in(members, "source"@),
        acc_x: integer_in(members, "acc_x"@),
        acc_y: integer_in(members, "acc_y"@),
        acc_z: integer_in(members, "acc_z"@),
        rot_x: integer_in(members, "rot_x"@),
        rot_y: integer_in(members, "rot_y"@),
        rot_z: integer_in(members, "rot_z"@),
        range: integer_in(members, "range"@),
    }
}

fn text_member(value: &serde_json::Value, name: &str) -> (text: Option<String>)
    ensures
        match text {
            Some(s) => text_in(members_in(model(*value)), name@) == Some(s@),
            None => text_in(members_in(model(*value)), name@) is None,
        },
{
    match lookup(value, name) {
        Some(inner) => match inner.as_str() {
            Some(s) => Some(s.to_owned()),
            None => None,
        },
        None => None,
    }
}

fn integer_member(value: &serde_json::Value, name: &str) -> (number: Option<i64>)
    ensures
        number == integer_in(members_in(model(*value)), name@),
{
    match lookup(value, name) {
        Some(inner) => inner.as_i64(),
        None => None,
    }
}

fn read_fields(value: &serde_json::Value) -> (fields: Fields)
    ensures
        fields@ == fields_of(model(*value)),
{
    Fields {
        source: text_member(value, "source"),
        acc_x: integer_member(value, "acc_x"),
        acc_y: integer_member(value, "acc_y"),
        acc_z: integer_member(value, "acc_z"),
        rot_x: integer_member(value, "rot_x"),
        rot_y: integer_member(value, "rot_y"),
        rot_z: integer_member(value, "rot_z"),
        range: integer_member(value, "range"),
    }
}

/// What a text decodes to: text that is not JSON is a `DecodeError`, and so
/// is JSON that is no object, since it has no members.
pub open spec fn decoded_text(text: Seq<char>) -> Result<Reading, CodecError> {
    match parsed(text) {
        Some(value) => classified(fields_of(value)),
        None => Err(CodecError::DecodeError),
    }
}

/// What a datagram decodes to: what is left of it without the padding must
/// be UTF-8, and is then decoded as text, without the white space around it.
pub open spec fn decoded(bytes: Seq<u8>) -> Result<Reading, CodecError> {
    let content = unpadded(bytes);
    if valid_utf8(content) {
        decoded_text(trimmed(decode_utf8(content)))
    } else {
        Err(CodecError::EncodingError)
    }
}

/// Decodes the JSON text of one reading.
pub fn decode_text(text: &str) -> (outcome: Result<JsonData, CodecError>)
    ensures
        match outcome {
            Ok(reading) => decoded_text(text@) == Ok::<Reading, CodecError>(reading@),
            Err(error) => decoded_text(text@) == Err::<Reading, CodecError>(error),
        },
{
    match parse(text) {
        Ok(document) => classify(read_fields(&document)),
        Err(_) => Err(CodecError::DecodeError),
    }
}

/// Decodes one datagram: drops the padding, reads what is left as UTF-8,
/// drops the white space around the text, and reads the text as the JSON of a
/// reading.
pub fn decode(bytes: &[u8]) -> (outcome: Result<JsonData, CodecError>)
    ensures
        match outcome {
            Ok(reading) => decoded(bytes@) == Ok::<Reading, CodecError>(reading@),
            Err(error) => decoded(bytes@) == Err::<Reading, CodecError>(error),
        },
{
    match text_of(unpad(bytes)) {
        Ok(text) => {
            proof {
                encode_utf8_decode_utf8(text@);
            }
            decode_text(trim(text))
        },
        Err(_) => Err(CodecError::EncodingError),
    }
}

/// The JSON text of a reading.
pub open spec fn encoded(reading: Reading) -> Seq<char> {
    rendered(members_of(reading))
}

/// The JSON text of a reading: a compact object with the members of its kind,
/// `source` first.
pub fn encode(reading: &JsonData) -> (text: String)
    ensures
        text@ == encoded(reading@),
{
    render(&members(reading))
}

/// A datagram decodes to `EncodingError` exactly if its bytes, once the NUL
/// padding is dropped, are not valid UTF-8.
pub proof fn lemma_encoding_error(bytes: Seq<u8>)
    ensures
        decoded(bytes) == Err::<Reading, CodecError>(CodecError::EncodingError) <==> !valid_utf8(
            unpadded(bytes),
        ),
{
    lemma_never_encoding_error(trimmed(decode_utf8(unpadded(bytes))));
}

/// Text never decodes to `EncodingError`: once a message is text, the only
/// failure left is `DecodeError`.
pub proof fn lemma_never_encoding_error(text: Seq<char>)
    ensures
        decoded_text(text) != Err::<Reading, CodecError>(CodecError::EncodingError),
{
}

/// A text that is JSON with the members of neither kind decodes to
/// `DecodeError`.
pub proof fn lemma_neither_kind_is_decode_error(text: Seq<char>)
    ensures
        (parsed(text) matches Some(value) && !fields_of(value).is_inertial() && !fields_of(
            value,
        ).is_range()) ==> decoded_text(text) == Err::<Reading, CodecError>(
            CodecError::DecodeError,
        ),
{
}

proof fn lemma_encode_utf8_push(chars: Seq<char>, last: char)
    ensures
        encode_utf8(chars.push(last)) == encode_utf8(chars) + encode_scalar(last as u32),
    decreases chars.len(),
{
    if chars.len() == 0 {
        let single = chars.push(last);
        assert(single.drop_first() =~= Seq::<char>::empty());
        assert(encode_utf8(single.drop_first()) =~= Seq::<u8>::empty());
        assert(single[0] == last);
        assert(encode_utf8(single) =~= encode_scalar(last as u32));
        assert(encode_utf8(chars) =~= Seq::<u8>::empty());
        assert(encode_utf8(chars) + encode_scalar(last as u32) =~= encode_scalar(last as u32));
    } else {
        let rest = chars.drop_first();
        lemma_encode_utf8_push(rest, last);
        assert(chars.push(last).drop_first() =~= rest.push(last));
        assert(chars.push(last)[0] == chars[0]);
        assert(encode_utf8(chars.push(last)) =~= encode_utf8(chars) + encode_scalar(last as u32));
    }
}

/// The text of an object stands between braces, so its last byte is `}`.
proof fn lemma_rendered_bytes(fields: FieldsView)
    ensures
        encode_utf8(rendered(fields)).len() > 0,
        encode_utf8(rendered(fields)).last() == 0x7d,
{
    let inner = seq!['{'] + joined(entries(fields));
    let text = rendered(fields);
    assert(text =~= inner.push('}'));
    lemma_encode_utf8_push(inner, '}');
    let shut = '}' as u32;
    assert(shut == 0x7d);
    assert(has_width_1_encoding(0x7du32) && leading_byte_width_1(0x7du32) == 0x7du8)
        by (bit_vector);
    assert(encode_scalar(shut) =~= seq![0x7du8]);
}

/// A datagram that holds the text of a reading, padded with NUL bytes to any
/// size, decodes as the text itself does: dropping the padding and the white
/// space takes nothing from it, and the text is UTF-8.
pub proof fn lemma_padded_text_decodes_as_text(reading: Reading, count: nat)
    ensures
        decoded(encode_utf8(encoded(reading)) + padding(count)) == decoded_text(encoded(reading)),
{
    let text = encoded(reading);
    let body = encode_utf8(text);
    lemma_rendered_bytes(members_of(reading));
    lemma_unpadded_padded(body, count);
    encode_utf8_valid_utf8(text);
    encode_utf8_decode_utf8(text);
    assert(text.first() == '{' && text.last() == '}');
    lemma_trimmed_unchanged(text);
}

/// Where the parser reads the text of a reading back as a value with the
/// members that the text was written with, the datagram that holds this
/// text, padded to any size, decodes to the reading.
pub proof fn lemma_round_trip_through_parser(reading: Reading, count: nat)
    ensures
        (parsed(encoded(reading)) matches Some(value) && fields_of(value) == members_of(
            reading,
        )) ==> decoded(encode_utf8(encoded(reading)) + padding(count)) == Ok::<
            Reading,
            CodecError,
        >(reading),
{
    lemma_padded_text_decodes_as_text(reading, count);
    lemma_members_round_trip(reading);
}

} // verus!
