//! What the library takes from other crates and from the standard library.
//!
//! Everything in this file is believed rather than proved. Each item states
//! what the function it reaches is documented to do.

use axum::http::header::{HeaderMap, HeaderValue, ToStrError};
use chrono::{DateTime, SecondsFormat, Utc};
use core::num::IntErrorKind;
use serde_json::Value;
use sha2::{Digest, Sha256};
use uuid::Uuid;
use vstd::prelude::*;
use vstd::utf8::{decode_utf8, encode_utf8, valid_utf8};

use crate::domain::event::Timestamp;
use crate::text::{decimal_usize, number_error, NumberError};

verus! {

/// An event identifier. The bytes it holds are named by `uuid_bytes`.
#[verifier::external_type_specification]
#[verifier::external_body]
pub struct ExUuid(Uuid);

/// A JSON document. What it holds is named by `json_text` and `json_strings`.
#[verifier::external_type_specification]
#[verifier::external_body]
pub struct ExValue(Value);

/// Why a JSON document could not be written.
#[verifier::external_type_specification]
#[verifier::external_body]
pub struct ExJsonError(serde_json::Error);

/// The headers of a request. What they hold is named by `header_entries`.
#[verifier::external_type_specification]
#[verifier::external_body]
#[verifier::reject_recursive_types(T)]
pub struct ExHeaderMap<T>(HeaderMap<T>);

/// One header value. The bytes it holds are named by `header_bytes`.
#[verifier::external_type_specification]
#[verifier::external_body]
pub struct ExHeaderValue(HeaderValue);

/// Why a header value is not text.
#[verifier::external_type_specification]
#[verifier::external_body]
pub struct ExToStrError(ToStrError);

// ---- identifiers and time ------------------------------------------------

/// The bytes that an identifier holds, the most significant first.
pub uninterp spec fn uuid_bytes(id: Uuid) -> Seq<u8>;

/// Whether sixteen bytes are a random identifier: of version 4, in the RFC 9562
/// variant.
pub open spec fn is_version_4(bytes: Seq<u8>) -> bool {
    &&& bytes.len() == 16
    &&& 0x40 <= bytes[6] <= 0x4f
    &&& 0x80 <= bytes[8] <= 0xbf
}

/// `Uuid::new_v4` draws a random identifier, which is marked as such. Nothing
/// is claimed of which one comes out: it rests on chance.
pub assume_specification[ Uuid::new_v4 ]() -> (id: Uuid)
    ensures
        is_version_4(uuid_bytes(id)),
;

/// `Utc::now` reads the system clock, which it takes to stand after the Unix
/// epoch. The reading is split into whole seconds since the epoch and the
/// nanoseconds of the current second, and is a time that can be written out.
/// Nothing is claimed of which time it is: that rests on the clock.
#[verifier::external_body]
pub(crate) fn utc_now() -> (now: Timestamp)
    ensures
        now.is_clock_reading(),
{
    let now = Utc::now();
    Timestamp { secs: now.timestamp(), nanos: now.timestamp_subsec_nanos() }
}

/// A time in UTC written as RFC 3339 text, given by its seconds since the Unix
/// epoch and the nanoseconds past them; nothing for a time that cannot be
/// written.
pub uninterp spec fn rfc3339(secs: i64, nanos: u32) -> Option<Seq<char>>;

/// `DateTime::from_timestamp` makes a time of seconds and nanoseconds where they
/// are in range, and `DateTime::to_rfc3339_opts` writes it, in the form in which
/// a time stands in a JSON document.
#[verifier::external_body]
pub(crate) fn timestamp_to_rfc3339(time: Timestamp) -> (text: Option<String>)
    ensures
        match text {
            Some(text) => rfc3339(time.secs, time.nanos) == Some(text@),
            None => rfc3339(time.secs, time.nanos) is None,
        },
{
    match DateTime::<Utc>::from_timestamp(time.secs, time.nanos) {
        Some(time) => Some(time.to_rfc3339_opts(SecondsFormat::AutoSi, true)),
        None => None,
    }
}

// ---- JSON ----------------------------------------------------------------

/// What a JSON document holds, written as compact JSON text.
pub uninterp spec fn json_text(value: Value) -> Seq<char>;

/// The members of a JSON object whose value is a string, by their key; empty
/// for a document that is not an object.
pub uninterp spec fn json_strings(value: Value) -> Map<Seq<char>, Seq<char>>;

/// `Value::is_null` tells whether a document is JSON `null`, the only document
/// whose compact text is `null`: strings are quoted and a JSON number is
/// always finite.
pub assume_specification[ Value::is_null ](value: &Value) -> (null: bool)
    ensures
        null == (json_text(*value) == "null"@),
;

/// `Value::get` finds the member of an object under a key, and `Value::as_str`
/// gives the text of a string. Together they read a string member; a missing
/// member, a member of another kind and a document that is not an object all
/// give nothing.
#[verifier::external_body]
pub(crate) fn json_string_member<'a>(value: &'a Value, key: &str) -> (text: Option<&'a str>)
    ensures
        match text {
            Some(text) => json_strings(*value).contains_key(key@)
                && text@ == json_strings(*value)[key@],
            None => !json_strings(*value).contains_key(key@),
        },
{
    value.get(key).and_then(Value::as_str)
}

/// `serde_json::to_string` writes a document as compact JSON text. It can fail
/// only on a map whose keys are not strings, which a document cannot hold.
#[verifier::external_body]
pub(crate) fn json_to_string(value: &Value) -> (text: Result<String, serde_json::Error>)
    ensures
        text is Ok,
        text->Ok_0@ == json_text(*value),
{
    serde_json::to_string(value)
}

/// The members that a list of pairs, each with a key of its own, gives an object.
pub open spec fn members_of(pairs: Seq<(String, String)>) -> Map<Seq<char>, Seq<char>>
    decreases pairs.len(),
{
    if pairs.len() == 0 {
        Map::empty()
    } else {
        members_of(pairs.drop_last()).insert(pairs.last().0@, pairs.last().1@)
    }
}

/// The compact JSON text of the object that has these members and no others,
/// every one of them a string.
pub uninterp spec fn json_object_text(members: Map<Seq<char>, Seq<char>>) -> Seq<char>;

/// `Value::from_iter` collects pairs of a key and a value into an object, which
/// keeps its members sorted by their keys. No key may come twice: which of its
/// values would stay is not claimed. The text of an object begins with a brace,
/// so it is never `null`.
#[verifier::external_body]
pub(crate) fn json_object(pairs: Vec<(String, String)>) -> (value: Value)
    requires
        forall|i: int, j: int|
            0 <= i < j < pairs@.len() ==> (#[trigger] pairs@[i]).0@ != (#[trigger] pairs@[j]).0@,
    ensures
        json_strings(value) == members_of(pairs@),
        json_text(value) == json_object_text(members_of(pairs@)),
        json_text(value) != "null"@,
{
    Value::from_iter(pairs)
}

// ---- request headers -----------------------------------------------------

/// What a header map holds: under each header name, in lower case, the bytes
/// of its values in the order in which they were added.
pub uninterp spec fn header_entries(headers: HeaderMap) -> Map<Seq<char>, Seq<Seq<u8>>>;

/// The bytes that a header value holds.
pub uninterp spec fn header_bytes(value: HeaderValue) -> Seq<u8>;

/// The bytes of a header value that count as text: visible ASCII, the space
/// and the tab.
pub open spec fn is_header_text(bytes: Seq<u8>) -> bool {
    forall|i: int| 0 <= i < bytes.len() ==> (32 <= #[trigger] bytes[i] < 127 || bytes[i] == 9)
}

/// `HeaderMap::get` gives the first value under a name, or nothing where the
/// name does not occur. Header names are kept in lower case.
#[verifier::external_body]
pub(crate) fn first_header<'a>(headers: &'a HeaderMap, name: &str) -> (value: Option<&'a HeaderValue>)
    requires
        forall|i: int| 0 <= i < name@.len() ==> !('A' <= #[trigger] name@[i] <= 'Z'),
    ensures
        match value {
            Some(value) => header_entries(*headers).contains_key(name@)
                && header_entries(*headers)[name@].len() > 0
                && header_bytes(*value) == header_entries(*headers)[name@][0],
            None => !header_entries(*headers).contains_key(name@),
        },
{
    headers.get(name)
}

/// `HeaderValue::to_str` gives the text of a value whose bytes are all visible
/// ASCII, spaces or tabs, and fails on any other.
pub assume_specification[ HeaderValue::to_str ](value: &HeaderValue) -> (text: Result<
    &str,
    ToStrError,
>)
    ensures
        text is Ok <==> is_header_text(header_bytes(*value)),
        text is Ok ==> encode_utf8(text->Ok_0@) == header_bytes(*value),
;

// ---- digests -------------------------------------------------------------

/// The SHA-256 digest of a byte string.
pub uninterp spec fn sha256(data: Seq<u8>) -> Seq<u8>;

/// `Sha256::digest` hashes a byte string into thirty-two bytes.
#[verifier::external_body]
pub(crate) fn sha256_digest(data: &[u8]) -> (digest: Vec<u8>)
    ensures
        digest@ == sha256(data@),
        digest@.len() == 32,
{
    Sha256::digest(data).to_vec()
}

// ---- text ----------------------------------------------------------------

/// `core::str::from_utf8` reads a byte string as text where it is valid UTF-8,
/// and fails on any other.
#[verifier::external_body]
pub(crate) fn text_from_utf8(bytes: &[u8]) -> (text: Option<&str>)
    ensures
        text is Some <==> valid_utf8(bytes@),
        text is Some ==> text->0@ == decode_utf8(bytes@),
{
    core::str::from_utf8(bytes).ok()
}

/// A byte string read as text, with what is not UTF-8 replaced.
pub uninterp spec fn utf8_lossy(bytes: Seq<u8>) -> Seq<char>;

/// `String::from_utf8_lossy` reads a byte string as text and puts U+FFFD in
/// place of every malformed part. Valid UTF-8 comes out as it is.
#[verifier::external_body]
pub(crate) fn text_from_utf8_lossy(bytes: &[u8]) -> (text: String)
    ensures
        text@ == utf8_lossy(bytes@),
        valid_utf8(bytes@) ==> text@ == decode_utf8(bytes@),
{
    String::from_utf8_lossy(bytes).into_owned()
}

/// `str::parse` reads an optional `+` and decimal digits as a `usize`. It fails
/// on any other text and on a number that does not fit, and
/// `ParseIntError::kind` tells why: the text is empty, it holds what is no digit
/// in its place, or the number is too large. Which of the two is told of a text
/// that breaks off after more digits than fit is not claimed.
#[verifier::external_body]
pub(crate) fn parse_usize(text: &str) -> (number: Result<usize, NumberError>)
    ensures
        match number {
            Ok(number) => decimal_usize(text@) == Some(number),
            Err(error) => decimal_usize(text@) is None && (number_error(text@) is Some ==> error
                == number_error(text@)->0),
        },
{
    match text.parse::<usize>() {
        Ok(number) => Ok(number),
        Err(error) => match error.kind() {
            IntErrorKind::Empty => Err(NumberError::Empty),
            IntErrorKind::InvalidDigit => Err(NumberError::InvalidDigit),
            IntErrorKind::PosOverflow => Err(NumberError::TooLarge),
            _ => Err(NumberError::Other),
        },
    }
}

} // verus!
