//! What becomes of a request, from its headers to its answer.
//!
//! A request is admitted, its project is looked up, its event is published and
//! its answer is given. The program around the library looks projects up and
//! sends records; each function here takes what the step before it came to.

use axum::http::HeaderMap;
use serde_json::Value;
use uuid::Uuid;
use vstd::prelude::*;

use crate::auth::{authenticate, has_credentials, Credentials, ProjectLookup};
use crate::domain::event::{IncomingEvent, KafkaEvent, ProjectIdentity};
use crate::error::ApiError;
use crate::outside::{is_version_4, uuid_bytes};
use crate::transport::kafka::{EventPublisher, EventRecord};

verus! {

/// What a request asks to have published.
#[derive(Debug)]
pub enum Submission {
    /// An event.
    Event(IncomingEvent),
    /// The payload of an OTLP trace export.
    OtlpTrace(Value),
}

impl Submission {
    /// Whether an event can be what is published of the submission for a
    /// project.
    pub open spec fn may_become(self, identity: ProjectIdentity, event: KafkaEvent) -> bool {
        match self {
            Submission::Event(input) => input.may_become(identity, event),
            Submission::OtlpTrace(payload) => {
                &&& event.is_otlp_trace(identity, payload)
                &&& is_version_4(uuid_bytes(event.event_id))
                &&& call_ensures(Uuid::new_v4, (), event.event_id)
                &&& event.occurred_at.is_clock_reading()
                &&& event.occurred_at.was_read()
                &&& event.received_at.is_clock_reading()
                &&& event.received_at.was_read()
            },
        }
    }
}

/// A request that may be looked up: its credentials and what it submits.
#[derive(Debug)]
pub struct Admitted {
    pub credentials: Credentials,
    pub submission: Submission,
}

/// The answer to a request whose event is on its way: the HTTP status, the
/// identifier of the event, and the word that stands for its fate.
#[derive(Debug)]
pub struct Accepted {
    pub status_code: u16,
    pub event_id: Uuid,
    pub status: &'static str,
}

/// The HTTP status of a request that was taken on.
pub const ACCEPTED: u16 = 202;

/// The HTTP status of a health probe that has nothing to report.
pub const NO_CONTENT: u16 = 204;

/// Whether this is how a request with an event is admitted. A faulty event is
/// refused before its credentials are read.
pub open spec fn admits_event(
    headers: HeaderMap,
    input: IncomingEvent,
    admitted: Result<Admitted, ApiError>,
) -> bool {
    match admitted {
        Ok(admitted) => {
            &&& input.fault() is None
            &&& admitted.credentials.are_carried_by(headers)
            &&& admitted.submission == Submission::Event(input)
        },
        Err(error) => match input.fault() {
            Some(fault) => error matches ApiError::BadRequest(message) && message@ == fault,
            None => error == ApiError::Unauthorized && !has_credentials(headers),
        },
    }
}

/// Whether this is how a request with an OTLP export is admitted.
pub open spec fn admits_otlp_trace(
    headers: HeaderMap,
    payload: Value,
    admitted: Result<Admitted, ApiError>,
) -> bool {
    match admitted {
        Ok(admitted) => {
            &&& admitted.credentials.are_carried_by(headers)
            &&& admitted.submission == Submission::OtlpTrace(payload)
        },
        Err(error) => error == ApiError::Unauthorized && !has_credentials(headers),
    }
}

/// Admits a request that brings an event.
pub fn ingest_event(headers: &HeaderMap, input: IncomingEvent) -> (admitted: Result<
    Admitted,
    ApiError,
>)
    ensures
        admits_event(*headers, input, admitted),
{
    match input.validate() {
        Ok(_) => {},
        Err(message) => {
            return Err(ApiError::BadRequest(message));
        },
    }
    match Credentials::from_headers(headers) {
        Ok(credentials) => Ok(Admitted { credentials, submission: Submission::Event(input) }),
        Err(error) => Err(error),
    }
}

/// Admits a request that brings an OTLP export. Any payload will do.
pub fn ingest_otlp_trace(headers: &HeaderMap, payload: Value) -> (admitted: Result<
    Admitted,
    ApiError,
>)
    ensures
        admits_otlp_trace(*headers, payload, admitted),
{
    match Credentials::from_headers(headers) {
        Ok(credentials) => Ok(Admitted { credentials, submission: Submission::OtlpTrace(payload) }),
        Err(error) => Err(error),
    }
}

/// Whether this is the record of a submission, given what the registry says of
/// its credentials.
pub open spec fn addresses(
    submission: Submission,
    lookup: ProjectLookup,
    prefix: Seq<char>,
    record: Result<EventRecord, ApiError>,
) -> bool {
    match lookup {
        ProjectLookup::Found(identity) => {
            &&& record is Ok
            &&& submission.may_become(identity, record->Ok_0.event)
            &&& record->Ok_0.is_addressed(prefix)
        },
        ProjectLookup::NotFound => record == Err::<EventRecord, ApiError>(ApiError::Unauthorized),
        ProjectLookup::Failed => record == Err::<EventRecord, ApiError>(ApiError::Unavailable),
    }
}

impl Admitted {
    /// Makes the record of the request's event, given what the registry says of
    /// its credentials.
    pub fn into_record(self, lookup: ProjectLookup, publisher: &EventPublisher) -> (record: Result<
        EventRecord,
        ApiError,
    >)
        ensures
            addresses(self.submission, lookup, publisher.config.topic_prefix@, record),
    {
        let identity = match authenticate(lookup) {
            Ok(identity) => identity,
            Err(error) => {
                return Err(error);
            },
        };
        let event = match self.submission {
            Submission::Event(input) => input.into_kafka_event(identity),
            Submission::OtlpTrace(payload) => KafkaEvent::otlp_trace(identity, payload),
        };
        Ok(publisher.publish(event))
    }
}

/// Whether this is the answer to a request whose record was sent, or could not
/// be sent.
pub open spec fn answers(
    event_id: Uuid,
    sent: bool,
    accepted: Result<Accepted, ApiError>,
) -> bool {
    if sent {
        &&& accepted is Ok
        &&& accepted->Ok_0.status_code == ACCEPTED
        &&& accepted->Ok_0.event_id == event_id
        &&& accepted->Ok_0.status@ == "accepted"@
    } else {
        accepted == Err::<Accepted, ApiError>(ApiError::Unavailable)
    }
}

/// Answers a request, given whether the record of its event could be sent.
pub fn accept_event(event_id: Uuid, sent: bool) -> (accepted: Result<Accepted, ApiError>)
    ensures
        answers(event_id, sent, accepted),
{
    if sent {
        Ok(Accepted { status_code: ACCEPTED, event_id, status: "accepted" })
    } else {
        Err(ApiError::Unavailable)
    }
}

/// Answers the probe that asks whether the service runs.
pub fn live() -> (status: u16)
    ensures
        status == NO_CONTENT,
{
    NO_CONTENT
}

/// Answers the probe that asks whether the service can do its work, given
/// whether the project registry answers.
pub fn ready(registry_answers: bool) -> (status: Result<u16, ApiError>)
    ensures
        status == (if registry_answers {
            Ok::<u16, ApiError>(NO_CONTENT)
        } else {
            Err::<u16, ApiError>(ApiError::Unavailable)
        }),
{
    if registry_answers {
        Ok(NO_CONTENT)
    } else {
        Err(ApiError::Unavailable)
    }
}

/// The status that a request ends with: that of the first step that refuses it,
/// or that of its acceptance.
pub open spec fn final_status(
    admitted: Result<Admitted, ApiError>,
    record: Result<EventRecord, ApiError>,
    accepted: Result<Accepted, ApiError>,
) -> u16 {
    match admitted {
        Err(error) => error.status(),
        Ok(_) => match record {
            Err(error) => error.status(),
            Ok(_) => match accepted {
                Err(error) => error.status(),
                Ok(accepted) => accepted.status_code,
            },
        },
    }
}

/// The status of a request with credentials, as its lookup and its sending
/// decide it.
pub open spec fn status_after_admission(lookup: ProjectLookup, sent: bool) -> u16 {
    match lookup {
        ProjectLookup::NotFound => 401,
        ProjectLookup::Failed => 503,
        ProjectLookup::Found(_) => if sent {
            202
        } else {
            503
        },
    }
}

/// A request with an event is answered 400 where the event is faulty, else 401
/// where it has no credentials or unknown ones, else 503 where the registry or
/// the broker fails, and else 202.
pub proof fn event_requests_are_answered(
    headers: HeaderMap,
    input: IncomingEvent,
    admitted: Result<Admitted, ApiError>,
    lookup: ProjectLookup,
    prefix: Seq<char>,
    record: Result<EventRecord, ApiError>,
    sent: bool,
    accepted: Result<Accepted, ApiError>,
)
    requires
        admits_event(headers, input, admitted),
        admitted is Ok ==> addresses(admitted->Ok_0.submission, lookup, prefix, record),
        admitted is Ok && record is Ok ==> answers(record->Ok_0.event.event_id, sent, accepted),
    ensures
        final_status(admitted, record, accepted) == (if input.fault() is Some {
            400
        } else if !has_credentials(headers) {
            401
        } else {
            status_after_admission(lookup, sent)
        }),
{
}

/// A request with an OTLP export is answered 401 where it has no credentials or
/// unknown ones, else 503 where the registry or the broker fails, and else 202.
pub proof fn otlp_requests_are_answered(
    headers: HeaderMap,
    payload: Value,
    admitted: Result<Admitted, ApiError>,
    lookup: ProjectLookup,
    prefix: Seq<char>,
    record: Result<EventRecord, ApiError>,
    sent: bool,
    accepted: Result<Accepted, ApiError>,
)
    requires
        admits_otlp_trace(headers, payload, admitted),
        admitted is Ok ==> addresses(admitted->Ok_0.submission, lookup, prefix, record),
        admitted is Ok && record is Ok ==> answers(record->Ok_0.event.event_id, sent, accepted),
    ensures
        final_status(admitted, record, accepted) == (if !has_credentials(headers) {
            401
        } else {
            status_after_admission(lookup, sent)
        }),
{
}

} // verus!
