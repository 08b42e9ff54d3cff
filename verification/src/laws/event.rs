//! What becomes of the events that clients send.

use serde_json::Value;
use uuid::Uuid;
use vstd::prelude::*;
use vstd::utf8::encode_utf8;

use crate::domain::event::{
    stream_key, stream_keys_tell_streams_apart, validate_length, EventType, IncomingEvent,
    KafkaEvent, ProjectIdentity, Timestamp,
};
use crate::laws::config::{is_word_of, names_are_words};
use crate::outside::json_text;

verus! {

/// Every kind has its word for a name.
pub proof fn kinds_are_named_by_their_word(event_type: EventType, name: &'static str)
    requires
        call_ensures(EventType::as_str, (&event_type,), name),
    ensures
        is_word_of(name@, event_type),
{
    names_are_words(event_type);
}

/// A text is refused exactly where it is there and takes more than two hundred
/// bytes, and its field is told.
pub proof fn only_overlong_texts_are_refused(
    field_name: &str,
    value: Option<&str>,
    checked: Result<(), String>,
)
    requires
        call_ensures(validate_length, (field_name, value), checked),
    ensures
        value is None ==> checked is Ok,
        value matches Some(text) ==> (checked is Err <==> encode_utf8(text@).len() > 200),
        checked matches Err(message) ==> message@ == field_name@
            + " must be 200 characters or fewer"@,
{
}

/// An event is refused exactly where its payload is null, or its name is there
/// and takes more than two hundred bytes, or its actor is there and does.
pub proof fn only_faulty_events_are_refused(event: IncomingEvent, checked: Result<(), String>)
    requires
        call_ensures(IncomingEvent::validate, (&event,), checked),
    ensures
        checked is Err <==> {
            ||| json_text(event.payload) == "null"@
            ||| event.event_name is Some && encode_utf8(event.event_name->0@).len() > 200
            ||| event.actor_id is Some && encode_utf8(event.actor_id->0@).len() > 200
        },
{
}

/// An event with a payload and with neither a name nor an actor is accepted,
/// whatever else it has.
pub proof fn names_and_actors_are_optional(event: IncomingEvent, checked: Result<(), String>)
    requires
        call_ensures(IncomingEvent::validate, (&event,), checked),
        json_text(event.payload) != "null"@,
        event.event_name is None,
        event.actor_id is None,
    ensures
        checked is Ok,
{
}

/// Of several faults the payload is told first, then the name, then the actor.
pub proof fn the_first_fault_is_told(event: IncomingEvent, message: String)
    requires
        call_ensures(IncomingEvent::validate, (&event,), Err(message)),
    ensures
        ({
            let null = json_text(event.payload) == "null"@;
            let long_name = event.event_name is Some && encode_utf8(event.event_name->0@).len()
                > 200;
            &&& null ==> message@ == "payload must not be null"@
            &&& !null && long_name ==> message@ == "event_name must be 200 characters or fewer"@
            &&& !null && !long_name ==> message@ == "actor_id must be 200 characters or fewer"@
        }),
{
    reveal_strlit("event_name");
    reveal_strlit("actor_id");
    reveal_strlit(" must be 200 characters or fewer");
    reveal_strlit("event_name must be 200 characters or fewer");
    reveal_strlit("actor_id must be 200 characters or fewer");
    assert("event_name"@ + " must be 200 characters or fewer"@
        =~= "event_name must be 200 characters or fewer"@);
    assert("actor_id"@ + " must be 200 characters or fewer"@
        =~= "actor_id must be 200 characters or fewer"@);
}

/// A copy of an identity names the same project and tenant.
pub proof fn identities_are_copied(identity: ProjectIdentity, copy: ProjectIdentity)
    requires
        call_ensures(<ProjectIdentity as Clone>::clone, (&identity,), copy),
    ensures
        copy == identity,
{
}

/// Whether a Kafka event holds what a client sent, for the project and the tenant
/// that the registry gave, in the first layout.
pub open spec fn holds(
    event: KafkaEvent,
    input: IncomingEvent,
    identity: ProjectIdentity,
) -> bool {
    &&& event.schema_version == 1
    &&& event.tenant_id@ == identity.tenant_id@
    &&& event.project_id@ == identity.project_id@
    &&& event.event_type == input.event_type
    &&& event.event_name == input.event_name
    &&& event.actor_id == input.actor_id
    &&& event.trace_id == input.trace_id
    &&& event.payload == input.payload
}

/// Whether a Kafka event holds an OTLP export, as a trace of the project and the
/// tenant that the registry gave, in the first layout.
pub open spec fn holds_export(
    event: KafkaEvent,
    payload: Value,
    identity: ProjectIdentity,
) -> bool {
    &&& event.schema_version == 1
    &&& event.tenant_id@ == identity.tenant_id@
    &&& event.project_id@ == identity.project_id@
    &&& event.event_type is Trace
    &&& event.event_name matches Some(name)
    &&& name@ == "otlp.trace.export"@
    &&& event.actor_id is None
    &&& event.trace_id is None
    &&& event.payload == payload
}

/// An event that is stamped keeps what its client sent and takes on the
/// identifier and the times that it is stamped with.
pub proof fn stamping_keeps_what_was_sent(
    input: IncomingEvent,
    identity: ProjectIdentity,
    event_id: Uuid,
    occurred_at: Timestamp,
    received_at: Timestamp,
    event: KafkaEvent,
)
    requires
        call_ensures(
            IncomingEvent::stamped,
            (input, identity, event_id, occurred_at, received_at),
            event,
        ),
    ensures
        holds(event, input, identity),
        event.event_id == event_id,
        event.occurred_at == occurred_at,
        event.received_at == received_at,
{
}

/// An event on its way to Kafka keeps what its client sent. An identifier or a
/// time that the client gave stays; one that it did not give is drawn for this
/// event or read from the clock. When it arrived is always read from the clock.
pub proof fn events_keep_what_was_sent(
    input: IncomingEvent,
    identity: ProjectIdentity,
    event: KafkaEvent,
)
    requires
        call_ensures(IncomingEvent::into_kafka_event, (input, identity), event),
    ensures
        holds(event, input, identity),
        input.event_id matches Some(id) ==> event.event_id == id,
        input.event_id is None ==> call_ensures(Uuid::new_v4, (), event.event_id),
        input.occurred_at matches Some(time) ==> event.occurred_at == time,
        input.occurred_at is None ==> event.occurred_at.was_read(),
        event.received_at.was_read(),
{
}

/// An OTLP export that is stamped takes on the identifier and the times that it
/// is stamped with.
pub proof fn stamped_exports_are_traces(
    identity: ProjectIdentity,
    payload: Value,
    event_id: Uuid,
    occurred_at: Timestamp,
    received_at: Timestamp,
    event: KafkaEvent,
)
    requires
        call_ensures(
            KafkaEvent::otlp_trace_stamped,
            (identity, payload, event_id, occurred_at, received_at),
            event,
        ),
    ensures
        holds_export(event, payload, identity),
        event.event_id == event_id,
        event.occurred_at == occurred_at,
        event.received_at == received_at,
{
}

/// An OTLP export is a trace event under an identifier that is drawn for it. It
/// occurred and arrived at times that the clock showed when it was read for them.
pub proof fn exports_occur_when_they_arrive(
    identity: ProjectIdentity,
    payload: Value,
    event: KafkaEvent,
)
    requires
        call_ensures(KafkaEvent::otlp_trace, (identity, payload), event),
    ensures
        holds_export(event, payload, identity),
        call_ensures(Uuid::new_v4, (), event.event_id),
        event.occurred_at.was_read(),
        event.received_at.was_read(),
{
}

/// Whether a key is that of a stream: the whole tenant, the whole project and the
/// word of the kind, with colons between them.
pub open spec fn is_key_of(
    key: Seq<char>,
    tenant_id: Seq<char>,
    project_id: Seq<char>,
    event_type: EventType,
) -> bool {
    let owner = tenant_id + seq![':'] + project_id + seq![':'];
    &&& owner.is_prefix_of(key)
    &&& is_word_of(key.skip(owner.len() as int), event_type)
}

/// The key of a stream is made of its tenant, its project and its kind.
pub(crate) proof fn stream_keys_are_keys(
    tenant_id: Seq<char>,
    project_id: Seq<char>,
    event_type: EventType,
)
    ensures
        is_key_of(stream_key(tenant_id, project_id, event_type), tenant_id, project_id, event_type),
{
    reveal_strlit(":");
    names_are_words(event_type);
    let owner = tenant_id + seq![':'] + project_id + seq![':'];
    let key = stream_key(tenant_id, project_id, event_type);
    assert(":"@ =~= seq![':']);
    assert(key =~= owner + event_type.name());
    assert(key.skip(owner.len() as int) =~= event_type.name());
}

/// The key of an event names its tenant, its project and its kind, each in full.
pub proof fn keys_name_their_stream(event: KafkaEvent, key: String)
    requires
        call_ensures(KafkaEvent::partition_key, (&event,), key),
    ensures
        is_key_of(key@, event.tenant_id@, event.project_id@, event.event_type),
{
    stream_keys_are_keys(event.tenant_id@, event.project_id@, event.event_type);
}

/// Events of one tenant, project and kind have one key, whatever else they hold.
/// Events of one tenant with one key are of one project and one kind.
pub proof fn keys_keep_streams_together(a: KafkaEvent, key_a: String, b: KafkaEvent, key_b: String)
    requires
        call_ensures(KafkaEvent::partition_key, (&a,), key_a),
        call_ensures(KafkaEvent::partition_key, (&b,), key_b),
        a.tenant_id@ == b.tenant_id@,
    ensures
        key_a@ == key_b@ <==> a.project_id@ == b.project_id@ && a.event_type == b.event_type,
{
    if key_a@ == key_b@ {
        let tenant = a.tenant_id@;
        reveal_strlit(":");
        if (tenant + ":"@).is_prefix_of(tenant) {
            assert((tenant + ":"@).len() == tenant.len() + 1);
        }
        stream_keys_tell_streams_apart(
            a.tenant_id@,
            a.project_id@,
            a.event_type,
            b.tenant_id@,
            b.project_id@,
            b.event_type,
        );
    }
}

} // verus!
