//! Who is let in, and how a request is refused.

use axum::http::HeaderMap;
use serde_json::Value;
use vstd::prelude::*;
use vstd::utf8::{
    decode_utf8_encode_utf8, encode_utf8, encode_utf8_decode_utf8, is_leading_byte_width_1,
    partial_valid_utf8, partial_valid_utf8_extend_ascii_block, valid_utf8,
};

use crate::auth::{authenticate, header_text, header_value, Credentials, ProjectLookup};
use crate::domain::event::ProjectIdentity;
use crate::error::{ApiError, ErrorResponse};
use crate::outside::{header_entries, is_header_text, json_object_text, json_strings, json_text};

verus! {

/// Whether headers carry a text under a name: the first value under the name is
/// the whole text, it is not empty, and its bytes are visible characters, spaces
/// and tabs.
pub open spec fn carries(headers: HeaderMap, name: Seq<char>, text: Seq<char>) -> bool {
    let bytes = header_entries(headers)[name][0];
    &&& header_entries(headers).contains_key(name)
    &&& encode_utf8(text) == bytes
    &&& bytes.len() > 0
    &&& forall|i: int| 0 <= i < bytes.len() ==> (32 <= #[trigger] bytes[i] < 127 || bytes[i] == 9)
}

/// Text of visible characters, spaces and tabs is UTF-8.
proof fn header_text_is_utf8(bytes: Seq<u8>)
    requires
        is_header_text(bytes),
    ensures
        valid_utf8(bytes),
{
    assert(bytes.subrange(0, 0) =~= Seq::empty());
    assert(partial_valid_utf8(bytes, 0));
    assert forall|i: int| 0 <= i < bytes.len() implies #[trigger] is_leading_byte_width_1(
        bytes[i],
    ) by {
        assert(32 <= bytes[i] < 127 || bytes[i] == 9);
    }
    partial_valid_utf8_extend_ascii_block(bytes, 0, bytes.len() as int);
    assert(bytes.subrange(0, bytes.len() as int) =~= bytes);
}

/// The text that is read from headers is the one that they carry.
pub(crate) proof fn header_texts_are_carried(headers: HeaderMap, name: Seq<char>, text: Seq<char>)
    ensures
        header_text(headers, name) == Some(text) <==> carries(headers, name, text),
{
    let bytes = header_entries(headers)[name][0];
    if header_text(headers, name) == Some(text) {
        header_text_is_utf8(bytes);
        decode_utf8_encode_utf8(bytes);
    }
    if carries(headers, name, text) {
        assert(is_header_text(bytes));
        encode_utf8_decode_utf8(text);
    }
}

/// A header is read exactly where the request carries text under its name, and
/// what is read is the whole text.
pub proof fn carried_headers_are_read(
    headers: &HeaderMap,
    name: &str,
    value: Result<&str, ApiError>,
    text: Seq<char>,
)
    requires
        call_ensures(header_value, (headers, name), value),
    ensures
        carries(*headers, name@, text) ==> value is Ok && value->Ok_0@ == text,
        value is Ok ==> carries(*headers, name@, value->Ok_0@),
        value is Err ==> value->Err_0 is Unauthorized,
{
    header_texts_are_carried(*headers, name@, text);
    if value is Ok {
        header_texts_are_carried(*headers, name@, value->Ok_0@);
    }
}

/// Credentials are read exactly where the request carries both: the identifier
/// under `clientid` and the secret under `clientsecret`, each in full.
pub proof fn carried_credentials_are_read(
    headers: &HeaderMap,
    credentials: Result<Credentials, ApiError>,
    client_id: Seq<char>,
    client_secret: Seq<char>,
)
    requires
        call_ensures(Credentials::from_headers, (headers,), credentials),
    ensures
        carries(*headers, "clientid"@, client_id) && carries(
            *headers,
            "clientsecret"@,
            client_secret,
        ) ==> credentials is Ok && credentials->Ok_0.client_id@ == client_id
            && credentials->Ok_0.client_secret@ == client_secret,
        credentials matches Ok(read) ==> carries(*headers, "clientid"@, read.client_id@) && carries(
            *headers,
            "clientsecret"@,
            read.client_secret@,
        ),
        credentials is Err ==> credentials->Err_0 is Unauthorized,
{
    header_texts_are_carried(*headers, "clientid"@, client_id);
    header_texts_are_carried(*headers, "clientsecret"@, client_secret);
    if credentials is Ok {
        header_texts_are_carried(*headers, "clientid"@, credentials->Ok_0.client_id@);
        header_texts_are_carried(*headers, "clientsecret"@, credentials->Ok_0.client_secret@);
    }
}

/// A request is from the project that the registry found, and from none where it
/// found none or could not be asked.
pub proof fn the_registry_decides(
    lookup: ProjectLookup,
    identity: Result<ProjectIdentity, ApiError>,
)
    requires
        call_ensures(authenticate, (lookup,), identity),
    ensures
        lookup matches ProjectLookup::Found(found) ==> identity is Ok && identity->Ok_0 == found,
        lookup is NotFound ==> identity is Err && identity->Err_0 is Unauthorized,
        lookup is Failed ==> identity is Err && identity->Err_0 is Unavailable,
{
}

/// What is said of a refusal; of a faulty event, the whole fault.
pub proof fn refusals_are_told(error: ApiError, text: String)
    requires
        call_ensures(ApiError::to_string, (&error,), text),
    ensures
        error is Unauthorized ==> text@ == "missing or invalid project credentials"@,
        error matches ApiError::BadRequest(fault) ==> text@ == "invalid event: "@ + fault@,
        error is Unavailable ==> text@ == "event pipeline is temporarily unavailable"@,
{
}

/// A refusal is answered with its status and with what is said of it.
pub proof fn refusals_are_answered(error: ApiError, response: ErrorResponse)
    requires
        call_ensures(ApiError::into_response, (error,), response),
    ensures
        error is Unauthorized ==> response.status == 401 && response.error@
            == "missing or invalid project credentials"@,
        error matches ApiError::BadRequest(fault) ==> response.status == 400 && response.error@
            == "invalid event: "@ + fault@,
        error is Unavailable ==> response.status == 503 && response.error@
            == "event pipeline is temporarily unavailable"@,
{
}

/// The body of a refusal is an object with its text under `error` and with no
/// other text.
pub proof fn refusals_carry_their_text(response: ErrorResponse, body: Value, key: Seq<char>)
    requires
        call_ensures(ErrorResponse::body, (&response,), body),
    ensures
        json_strings(body).contains_key(key) <==> key == "error"@,
        json_strings(body)["error"@] == response.error@,
        json_text(body) == json_object_text(json_strings(body)),
{
}

} // verus!
