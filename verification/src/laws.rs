//! What holds of an event on its whole way, from the request to the store, and,
//! in the modules below, of every operation on that way.
//!
//! The laws of the modules are stated of calls: whatever a call of an operation
//! gives back for its arguments, it stands in the stated relation to them.

pub mod auth;
pub mod config;
pub mod consumer;
pub mod event;
pub mod http;
pub mod kafka;
pub mod store;
pub mod text;

use serde_json::Value;
use vstd::prelude::*;

use crate::auth::ProjectLookup;
use crate::config::{text_or, topic_name};
use crate::domain::event::{stream_key, EventType, IncomingEvent, KafkaEvent};
use crate::error::ApiError;
use crate::infrastructure::clickhouse::{fingerprint, StoredEvent};
use crate::outside::json_text;
use crate::transport::http::{addresses, answers, Accepted, Submission};
use crate::transport::kafka::EventRecord;

verus! {

/// The tenant and the project of what is published are those that the registry
/// gave for the credentials, whatever the request submits, and nothing is
/// published unless the registry gave them.
pub proof fn identity_comes_from_the_registry(
    submission: Submission,
    lookup: ProjectLookup,
    prefix: Seq<char>,
    record: Result<EventRecord, ApiError>,
)
    requires
        addresses(submission, lookup, prefix, record),
    ensures
        record is Ok <==> lookup is Found,
        lookup matches ProjectLookup::Found(identity) ==> {
            &&& record->Ok_0.event.tenant_id == identity.tenant_id
            &&& record->Ok_0.event.project_id == identity.project_id
            &&& record->Ok_0.topic@ == topic_name(prefix, record->Ok_0.event.event_type)
            &&& record->Ok_0.key@ == stream_key(
                identity.tenant_id@,
                identity.project_id@,
                record->Ok_0.event.event_type,
            )
        },
{
}

/// The identifier that a client gives its event is the one that is published,
/// answered with and found in the row of the published event.
pub proof fn event_id_is_preserved(
    input: IncomingEvent,
    lookup: ProjectLookup,
    prefix: Seq<char>,
    record: Result<EventRecord, ApiError>,
    accepted: Result<Accepted, ApiError>,
    stored: StoredEvent,
)
    requires
        input.event_id is Some,
        lookup is Found,
        addresses(Submission::Event(input), lookup, prefix, record),
        answers(record->Ok_0.event.event_id, true, accepted),
        stored.stores(record->Ok_0.event),
    ensures
        record->Ok_0.event.event_id == input.event_id->0,
        accepted->Ok_0.event_id == input.event_id->0,
        stored.event_id == input.event_id->0,
{
}

/// Whatever the identifier, the one in the row of the published event is the one
/// that the request was answered with.
pub proof fn answered_event_id_is_stored(
    submission: Submission,
    lookup: ProjectLookup,
    prefix: Seq<char>,
    record: Result<EventRecord, ApiError>,
    accepted: Result<Accepted, ApiError>,
    stored: StoredEvent,
)
    requires
        lookup is Found,
        addresses(submission, lookup, prefix, record),
        answers(record->Ok_0.event.event_id, true, accepted),
        stored.stores(record->Ok_0.event),
    ensures
        accepted->Ok_0.event_id == stored.event_id,
{
}

/// The row of an event keeps what its client sent: its kind, its name, its
/// actor, its trace and its payload. What was not given is stored empty.
pub proof fn stored_rows_keep_what_was_sent(
    input: IncomingEvent,
    lookup: ProjectLookup,
    prefix: Seq<char>,
    record: Result<EventRecord, ApiError>,
    stored: StoredEvent,
)
    requires
        lookup is Found,
        addresses(Submission::Event(input), lookup, prefix, record),
        stored.stores(record->Ok_0.event),
    ensures
        stored.event_type@ == input.event_type.name(),
        stored.event_name@ == text_or(input.event_name, Seq::empty()),
        stored.actor_id@ == text_or(input.actor_id, Seq::empty()),
        stored.trace_id@ == text_or(input.trace_id, Seq::empty()),
        stored.payload@ == json_text(input.payload),
        stored.error_fingerprint@ == fingerprint(input.event_type, input.payload),
        input.occurred_at is Some ==> stored.occurred_at == input.occurred_at->0,
{
}

/// An OTLP export is published as a trace event, with its payload as it came.
pub proof fn otlp_exports_become_traces(
    payload: Value,
    lookup: ProjectLookup,
    prefix: Seq<char>,
    record: Result<EventRecord, ApiError>,
)
    requires
        lookup is Found,
        addresses(Submission::OtlpTrace(payload), lookup, prefix, record),
    ensures
        record->Ok_0.event.event_type == EventType::Trace,
        record->Ok_0.event.payload == payload,
        record->Ok_0.topic@ == topic_name(prefix, EventType::Trace),
{
}

/// Storing an event again gives the same row, so that a row written twice
/// replaces itself.
pub proof fn storing_again_gives_the_same_row(event: KafkaEvent, a: StoredEvent, b: StoredEvent)
    requires
        a.stores(event),
        b.stores(event),
    ensures
        a.event_id == b.event_id,
        a.tenant_id@ == b.tenant_id@,
        a.project_id@ == b.project_id@,
        a.event_type@ == b.event_type@,
        a.occurred_at == b.occurred_at,
        a.received_at == b.received_at,
        a.event_name@ == b.event_name@,
        a.actor_id@ == b.actor_id@,
        a.trace_id@ == b.trace_id@,
        a.error_fingerprint@ == b.error_fingerprint@,
        a.payload@ == b.payload@,
{
}

} // verus!
