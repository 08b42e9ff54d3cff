//! Events as rows of the event store.

use serde_json::Value;
use uuid::Uuid;
use vstd::prelude::*;
use vstd::utf8::encode_utf8;

use crate::config::text_or;
use crate::domain::event::{EventType, KafkaEvent, Timestamp};
use crate::outside::{
    json_string_member, json_strings, json_text, json_to_string, sha256, sha256_digest,
};
use crate::text::{hex_text, hex_text_is_lower_hex, hex_text_tells_bytes_apart, is_digit, lower_hex};

verus! {

/// The text of a string member of a payload; empty where there is none.
pub open spec fn member_text(payload: Value, key: Seq<char>) -> Seq<char> {
    if json_strings(payload).contains_key(key) {
        json_strings(payload)[key]
    } else {
        Seq::empty()
    }
}

/// Reads a string member of a payload, or the empty text where there is none.
pub fn payload_string<'a>(payload: &'a Value, key: &str) -> (text: &'a str)
    ensures
        text@ == member_text(*payload, key@),
{
    match json_string_member(payload, key) {
        Some(text) => text,
        None => {
            proof {
                reveal_strlit("");
            }
            assert(""@ =~= Seq::<char>::empty());
            ""
        },
    }
}

/// What tells one error from another: its name, its message and its stack.
pub open spec fn error_identity(payload: Value) -> Seq<char> {
    member_text(payload, "name"@) + "|"@ + member_text(payload, "message"@) + "|"@ + member_text(
        payload,
        "stack"@,
    )
}

/// Joins the name, the message and the stack of an error.
pub fn error_source(payload: &Value) -> (source: String)
    ensures
        source@ == error_identity(*payload),
{
    let mut source = payload_string(payload, "name").to_owned();
    source.append("|");
    source.append(payload_string(payload, "message"));
    source.append("|");
    source.append(payload_string(payload, "stack"));
    source
}

/// The fingerprint of an event: for an error the digest of what tells it from
/// others, in hexadecimal; for any other event nothing.
pub open spec fn fingerprint(event_type: EventType, payload: Value) -> Seq<char> {
    if event_type == EventType::Error {
        hex_text(sha256(encode_utf8(error_identity(payload))))
    } else {
        Seq::empty()
    }
}

/// Computes the fingerprint of an event.
pub fn error_fingerprint(event: &KafkaEvent) -> (text: String)
    ensures
        text@ == fingerprint(event.event_type, event.payload),
        event.event_type == EventType::Error ==> text@.len() == 64,
{
    match event.event_type {
        EventType::Error => {
            let source = error_source(&event.payload);
            let digest = sha256_digest(source.as_str().as_bytes());
            lower_hex(digest.as_slice())
        },
        _ => String::new(),
    }
}

/// An event as a row of the event store.
#[derive(Debug)]
pub struct StoredEvent {
    pub event_id: Uuid,
    pub tenant_id: String,
    pub project_id: String,
    pub event_type: String,
    pub occurred_at: Timestamp,
    pub received_at: Timestamp,
    pub event_name: String,
    pub actor_id: String,
    pub trace_id: String,
    pub error_fingerprint: String,
    pub payload: String,
}

/// An optional text, or the empty text where it is not there.
fn text_or_empty(value: &Option<String>) -> (text: String)
    ensures
        text@ == text_or(*value, Seq::empty()),
{
    match value {
        Some(text) => text.clone(),
        None => String::new(),
    }
}

impl StoredEvent {
    /// Whether this is the row of an event.
    pub open spec fn stores(self, event: KafkaEvent) -> bool {
        &&& self.event_id == event.event_id
        &&& self.tenant_id == event.tenant_id
        &&& self.project_id == event.project_id
        &&& self.event_type@ == event.event_type.name()
        &&& self.occurred_at == event.occurred_at
        &&& self.received_at == event.received_at
        &&& self.event_name@ == text_or(event.event_name, Seq::empty())
        &&& self.actor_id@ == text_or(event.actor_id, Seq::empty())
        &&& self.trace_id@ == text_or(event.trace_id, Seq::empty())
        &&& self.error_fingerprint@ == fingerprint(event.event_type, event.payload)
        &&& self.payload@ == json_text(event.payload)
    }

    /// Builds the row of an event.
    pub fn from_event(event: &KafkaEvent) -> (stored: Result<Self, serde_json::Error>)
        ensures
            stored is Ok,
            stored->Ok_0.stores(*event),
    {
        let error_fingerprint = error_fingerprint(event);
        match json_to_string(&event.payload) {
            Ok(payload) => Ok(
                StoredEvent {
                    event_id: event.event_id,
                    tenant_id: event.tenant_id.clone(),
                    project_id: event.project_id.clone(),
                    event_type: event.event_type.as_str().to_owned(),
                    occurred_at: event.occurred_at,
                    received_at: event.received_at,
                    event_name: text_or_empty(&event.event_name),
                    actor_id: text_or_empty(&event.actor_id),
                    trace_id: text_or_empty(&event.trace_id),
                    error_fingerprint,
                    payload,
                },
            ),
            Err(error) => Err(error),
        }
    }
}

/// The fingerprint of an error is stable: it depends on the name, the message
/// and the stack alone, whatever else the payload holds.
pub proof fn fingerprint_is_stable(a: Value, b: Value)
    requires
        member_text(a, "name"@) == member_text(b, "name"@),
        member_text(a, "message"@) == member_text(b, "message"@),
        member_text(a, "stack"@) == member_text(b, "stack"@),
    ensures
        fingerprint(EventType::Error, a) == fingerprint(EventType::Error, b),
{
}

/// Two errors with one fingerprint have one digest.
pub proof fn fingerprint_tells_digests_apart(a: Value, b: Value)
    requires
        fingerprint(EventType::Error, a) == fingerprint(EventType::Error, b),
    ensures
        sha256(encode_utf8(error_identity(a))) == sha256(encode_utf8(error_identity(b))),
{
    hex_text_tells_bytes_apart(
        sha256(encode_utf8(error_identity(a))),
        sha256(encode_utf8(error_identity(b))),
    );
}

/// A fingerprint is written with digits and the letters from `a` to `f`, and
/// only errors have one that is not empty.
pub proof fn fingerprint_is_lower_hex(event_type: EventType, payload: Value)
    ensures
        forall|i: int|
            0 <= i < fingerprint(event_type, payload).len() ==> is_digit(
                #[trigger] fingerprint(event_type, payload)[i],
            ) || 'a' <= fingerprint(event_type, payload)[i] <= 'f',
        event_type != EventType::Error ==> fingerprint(event_type, payload).len() == 0,
{
    hex_text_is_lower_hex(sha256(encode_utf8(error_identity(payload))));
}

} // verus!
