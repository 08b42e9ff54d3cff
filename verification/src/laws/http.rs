//! What becomes of a request.

use axum::http::HeaderMap;
use serde_json::Value;
use uuid::Uuid;
use vstd::prelude::*;
use vstd::utf8::encode_utf8;

use crate::auth::ProjectLookup;
use crate::domain::event::IncomingEvent;
use crate::error::ApiError;
use crate::laws::auth::{carries, header_texts_are_carried};
use crate::laws::config::{is_topic_of, topic_names_are_topics};
use crate::laws::event::{holds, holds_export, is_key_of, stream_keys_are_keys};
use crate::outside::json_text;
use crate::transport::http::{
    accept_event, ingest_event, ingest_otlp_trace, live, ready, Accepted, Admitted, Submission,
};
use crate::transport::kafka::{EventPublisher, EventRecord};

verus! {

/// Whether an event may not be published: its payload is null, or its name or its
/// actor takes more than two hundred bytes.
pub open spec fn is_faulty(input: IncomingEvent) -> bool {
    ||| json_text(input.payload) == "null"@
    ||| input.event_name is Some && encode_utf8(input.event_name->0@).len() > 200
    ||| input.actor_id is Some && encode_utf8(input.actor_id->0@).len() > 200
}

/// A request with an event is refused for a faulty event, whatever its headers. A
/// sound event is admitted exactly where the request carries credentials, with
/// these credentials and as it came.
pub proof fn sound_events_with_credentials_are_admitted(
    headers: &HeaderMap,
    input: IncomingEvent,
    admitted: Result<Admitted, ApiError>,
    client_id: Seq<char>,
    client_secret: Seq<char>,
)
    requires
        call_ensures(ingest_event, (headers, input), admitted),
    ensures
        is_faulty(input) ==> admitted is Err && admitted->Err_0 is BadRequest,
        !is_faulty(input) && carries(*headers, "clientid"@, client_id) && carries(
            *headers,
            "clientsecret"@,
            client_secret,
        ) ==> admitted is Ok && admitted->Ok_0.credentials.client_id@ == client_id
            && admitted->Ok_0.credentials.client_secret@ == client_secret,
        !is_faulty(input) && admitted is Err ==> admitted->Err_0 is Unauthorized,
        admitted matches Ok(request) ==> !is_faulty(input) && request.submission
            == Submission::Event(input) && carries(
            *headers,
            "clientid"@,
            request.credentials.client_id@,
        ) && carries(*headers, "clientsecret"@, request.credentials.client_secret@),
{
    header_texts_are_carried(*headers, "clientid"@, client_id);
    header_texts_are_carried(*headers, "clientsecret"@, client_secret);
    if admitted is Ok {
        let credentials = admitted->Ok_0.credentials;
        header_texts_are_carried(*headers, "clientid"@, credentials.client_id@);
        header_texts_are_carried(*headers, "clientsecret"@, credentials.client_secret@);
    }
}

/// A request that is refused for its event is told the first fault.
pub proof fn faulty_events_are_told_their_fault(
    headers: &HeaderMap,
    input: IncomingEvent,
    message: String,
)
    requires
        call_ensures(ingest_event, (headers, input), Err(ApiError::BadRequest(message))),
    ensures
        ({
            let null = json_text(input.payload) == "null"@;
            let long_name = input.event_name is Some && encode_utf8(input.event_name->0@).len()
                > 200;
            &&& null ==> message@ == "payload must not be null"@
            &&& !null && long_name ==> message@ == "event_name"@
                + " must be 200 characters or fewer"@
            &&& !null && !long_name ==> message@ == "actor_id"@
                + " must be 200 characters or fewer"@
        }),
{
}

/// A request with an OTLP export is admitted exactly where it carries credentials,
/// with these credentials and with any payload, as it came.
pub proof fn exports_with_credentials_are_admitted(
    headers: &HeaderMap,
    payload: Value,
    admitted: Result<Admitted, ApiError>,
    client_id: Seq<char>,
    client_secret: Seq<char>,
)
    requires
        call_ensures(ingest_otlp_trace, (headers, payload), admitted),
    ensures
        carries(*headers, "clientid"@, client_id) && carries(
            *headers,
            "clientsecret"@,
            client_secret,
        ) ==> admitted is Ok && admitted->Ok_0.credentials.client_id@ == client_id
            && admitted->Ok_0.credentials.client_secret@ == client_secret,
        admitted is Err ==> admitted->Err_0 is Unauthorized,
        admitted matches Ok(request) ==> request.submission == Submission::OtlpTrace(payload)
            && carries(*headers, "clientid"@, request.credentials.client_id@) && carries(
            *headers,
            "clientsecret"@,
            request.credentials.client_secret@,
        ),
{
    header_texts_are_carried(*headers, "clientid"@, client_id);
    header_texts_are_carried(*headers, "clientsecret"@, client_secret);
    if admitted is Ok {
        let credentials = admitted->Ok_0.credentials;
        header_texts_are_carried(*headers, "clientid"@, credentials.client_id@);
        header_texts_are_carried(*headers, "clientsecret"@, credentials.client_secret@);
    }
}

/// A request is published exactly where the registry found its project. It goes
/// to the topic of its kind, under the key of the tenant and the project that
/// the registry gave. Otherwise it is refused, as unauthorized where the registry
/// found none and as unavailable where it could not be asked.
pub proof fn requests_are_published_for_their_project(
    admitted: Admitted,
    lookup: ProjectLookup,
    publisher: &EventPublisher,
    record: Result<EventRecord, ApiError>,
)
    requires
        call_ensures(Admitted::into_record, (admitted, lookup, publisher), record),
    ensures
        lookup matches ProjectLookup::Found(identity) ==> {
            &&& record is Ok
            &&& is_topic_of(
                record->Ok_0.topic@,
                publisher.config.topic_prefix@,
                record->Ok_0.event.event_type,
            )
            &&& is_key_of(
                record->Ok_0.key@,
                identity.tenant_id@,
                identity.project_id@,
                record->Ok_0.event.event_type,
            )
        },
        lookup is NotFound ==> record is Err && record->Err_0 is Unauthorized,
        lookup is Failed ==> record is Err && record->Err_0 is Unavailable,
{
    if record is Ok {
        let event = record->Ok_0.event;
        topic_names_are_topics(publisher.config.topic_prefix@, event.event_type);
        stream_keys_are_keys(event.tenant_id@, event.project_id@, event.event_type);
    }
}

/// What is published of an event is what its client sent. An identifier or a time
/// that the client gave stays; one that it did not give is drawn for this event
/// or read from the clock, as is when it arrived.
pub proof fn published_events_keep_what_was_sent(
    admitted: Admitted,
    input: IncomingEvent,
    lookup: ProjectLookup,
    publisher: &EventPublisher,
    record: EventRecord,
)
    requires
        call_ensures(Admitted::into_record, (admitted, lookup, publisher), Ok(record)),
        admitted.submission == Submission::Event(input),
    ensures
        lookup is Found,
        holds(record.event, input, lookup->Found_0),
        input.event_id matches Some(id) ==> record.event.event_id == id,
        input.event_id is None ==> call_ensures(Uuid::new_v4, (), record.event.event_id),
        input.occurred_at matches Some(time) ==> record.event.occurred_at == time,
        input.occurred_at is None ==> record.event.occurred_at.was_read(),
        record.event.received_at.was_read(),
{
}

/// What is published of an OTLP export is a trace with the payload as it came. It
/// occurred and arrived at times that were read from the clock.
pub proof fn published_exports_occur_when_they_arrive(
    admitted: Admitted,
    payload: Value,
    lookup: ProjectLookup,
    publisher: &EventPublisher,
    record: EventRecord,
)
    requires
        call_ensures(Admitted::into_record, (admitted, lookup, publisher), Ok(record)),
        admitted.submission == Submission::OtlpTrace(payload),
    ensures
        lookup is Found,
        holds_export(record.event, payload, lookup->Found_0),
        call_ensures(Uuid::new_v4, (), record.event.event_id),
        record.event.occurred_at.was_read(),
        record.event.received_at.was_read(),
{
}

/// A request is accepted exactly where its record was sent, and the answer names
/// the event.
pub proof fn sent_events_are_accepted(
    event_id: Uuid,
    sent: bool,
    accepted: Result<Accepted, ApiError>,
)
    requires
        call_ensures(accept_event, (event_id, sent), accepted),
    ensures
        sent ==> accepted is Ok && accepted->Ok_0.status_code == 202 && accepted->Ok_0.event_id
            == event_id && accepted->Ok_0.status@ == "accepted"@,
        !sent ==> accepted is Err && accepted->Err_0 is Unavailable,
{
}

/// A service that runs says so, with nothing to add.
pub proof fn running_services_are_live(status: u16)
    requires
        call_ensures(live, (), status),
    ensures
        status == 204,
{
}

/// A service is ready exactly where the registry answers.
pub proof fn services_are_ready_with_the_registry(
    registry_answers: bool,
    status: Result<u16, ApiError>,
)
    requires
        call_ensures(ready, (registry_answers,), status),
    ensures
        registry_answers ==> status is Ok && status->Ok_0 == 204,
        !registry_answers ==> status is Err && status->Err_0 is Unavailable,
{
}

} // verus!
