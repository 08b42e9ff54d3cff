//! Events as they come in, as Kafka carries them, and the rules on both.

use serde_json::Value;
use uuid::Uuid;
use vstd::prelude::*;
use vstd::utf8::encode_utf8;

use crate::outside::{is_version_4, json_text, rfc3339, utc_now, uuid_bytes};

verus! {

/// A point in time: whole seconds since the Unix epoch and the nanoseconds
/// past that second.
#[derive(Clone, Copy, Debug, PartialEq, Eq, Structural)]
pub struct Timestamp {
    pub secs: i64,
    pub nanos: u32,
}

impl Timestamp {
    /// What holds of every time read from the system clock: it stands after the
    /// epoch, and it can be written out.
    pub open spec fn is_clock_reading(self) -> bool {
        &&& self.secs >= 0
        &&& self.nanos < 1_000_000_000
        &&& rfc3339(self.secs, self.nanos) is Some
    }

    /// Whether this time is what a reading of the system clock came to.
    pub closed spec fn was_read(self) -> bool {
        call_ensures(utc_now, (), self)
    }
}

/// A time was read where the clock has given it, and nowhere else.
pub(crate) proof fn times_are_read_from_the_clock(time: Timestamp)
    ensures
        time.was_read() <==> call_ensures(utc_now, (), time),
{
}

/// The kind of an event. Each kind has a topic of its own.
#[derive(Clone, Copy, Debug, PartialEq, Eq, Structural)]
pub enum EventType {
    Trace,
    Error,
    Activity,
}

impl EventType {
    /// The name of the kind, in topics, keys and stored rows.
    pub open spec fn name(self) -> Seq<char> {
        match self {
            EventType::Trace => "trace"@,
            EventType::Error => "error"@,
            EventType::Activity => "activity"@,
        }
    }

    /// The name of the kind.
    pub fn as_str(&self) -> (name: &'static str)
        ensures
            name@ == self.name(),
    {
        match self {
            EventType::Trace => "trace",
            EventType::Error => "error",
            EventType::Activity => "activity",
        }
    }
}

/// Two kinds with one name are one kind, and no name holds a colon.
pub proof fn event_type_names_are_distinct(a: EventType, b: EventType)
    ensures
        a.name() == b.name() ==> a == b,
        !a.name().contains(':'),
{
    reveal_strlit("trace");
    reveal_strlit("error");
    reveal_strlit("activity");
    if a.name() == b.name() {
        assert(a.name()[0] == b.name()[0]);
    }
}

/// Who an event belongs to: the project that its credentials stand for, and
/// the tenant that owns the project.
#[derive(Debug)]
pub struct ProjectIdentity {
    pub project_id: String,
    pub tenant_id: String,
}

impl Clone for ProjectIdentity {
    fn clone(&self) -> (copy: Self)
        ensures
            copy == *self,
    {
        ProjectIdentity { project_id: self.project_id.clone(), tenant_id: self.tenant_id.clone() }
    }
}

/// The longest an event name or an actor id may be, in bytes of UTF-8.
pub const MAX_FIELD_BYTES: usize = 200;

/// Whether an optional text is longer than a field may be.
pub open spec fn is_too_long(value: Option<Seq<char>>) -> bool {
    match value {
        Some(text) => encode_utf8(text).len() > MAX_FIELD_BYTES,
        None => false,
    }
}

/// What is said of a field that is too long.
pub open spec fn length_error(field_name: Seq<char>) -> Seq<char> {
    field_name + " must be 200 characters or fewer"@
}

/// The contents of an optional text.
pub open spec fn optional_text(value: Option<String>) -> Option<Seq<char>> {
    match value {
        Some(text) => Some(text@),
        None => None,
    }
}

/// Refuses a text that is longer than a field may be.
pub fn validate_length(field_name: &str, value: Option<&str>) -> (checked: Result<(), String>)
    ensures
        checked is Err <==> value is Some && is_too_long(Some(value->0@)),
        checked is Err ==> checked->Err_0@ == length_error(field_name@),
{
    if let Some(value) = value {
        if value.as_bytes().len() > MAX_FIELD_BYTES {
            let mut message = field_name.to_owned();
            message.append(" must be 200 characters or fewer");
            return Err(message);
        }
    }
    Ok(())
}

/// An event as a client sends it. The tenant and the project are not part of
/// it: they come from the credentials.
#[derive(Debug)]
pub struct IncomingEvent {
    pub event_id: Option<Uuid>,
    pub event_type: EventType,
    pub occurred_at: Option<Timestamp>,
    pub event_name: Option<String>,
    pub actor_id: Option<String>,
    pub trace_id: Option<String>,
    pub payload: Value,
}

impl IncomingEvent {
    /// The first thing wrong with the event, if anything is: a null payload,
    /// then an overlong event name, then an overlong actor id.
    pub open spec fn fault(self) -> Option<Seq<char>> {
        if json_text(self.payload) == "null"@ {
            Some("payload must not be null"@)
        } else if is_too_long(optional_text(self.event_name)) {
            Some(length_error("event_name"@))
        } else if is_too_long(optional_text(self.actor_id)) {
            Some(length_error("actor_id"@))
        } else {
            None
        }
    }

    /// Accepts the event or says what is wrong with it.
    pub fn validate(&self) -> (checked: Result<(), String>)
        ensures
            match checked {
                Ok(_) => self.fault() is None,
                Err(message) => self.fault() == Some(message@),
            },
    {
        if self.payload.is_null() {
            return Err("payload must not be null".to_owned());
        }
        let event_name = match &self.event_name {
            Some(name) => Some(name.as_str()),
            None => None,
        };
        match validate_length("event_name", event_name) {
            Ok(_) => {},
            Err(message) => {
                return Err(message);
            },
        }
        let actor_id = match &self.actor_id {
            Some(actor) => Some(actor.as_str()),
            None => None,
        };
        validate_length("actor_id", actor_id)
    }

    /// The Kafka event that this event becomes for a project, under an
    /// identifier and with the times that it happened and arrived.
    pub open spec fn stamped_event(
        self,
        identity: ProjectIdentity,
        event_id: Uuid,
        occurred_at: Timestamp,
        received_at: Timestamp,
    ) -> KafkaEvent {
        KafkaEvent {
            schema_version: SCHEMA_VERSION,
            event_id,
            tenant_id: identity.tenant_id,
            project_id: identity.project_id,
            event_type: self.event_type,
            occurred_at,
            received_at,
            event_name: self.event_name,
            actor_id: self.actor_id,
            trace_id: self.trace_id,
            payload: self.payload,
        }
    }

    /// Builds the Kafka event with a given identifier and given times.
    pub fn stamped(
        self,
        identity: ProjectIdentity,
        event_id: Uuid,
        occurred_at: Timestamp,
        received_at: Timestamp,
    ) -> (event: KafkaEvent)
        ensures
            event == self.stamped_event(identity, event_id, occurred_at, received_at),
    {
        KafkaEvent {
            schema_version: SCHEMA_VERSION,
            event_id,
            tenant_id: identity.tenant_id,
            project_id: identity.project_id,
            event_type: self.event_type,
            occurred_at,
            received_at,
            event_name: self.event_name,
            actor_id: self.actor_id,
            trace_id: self.trace_id,
            payload: self.payload,
        }
    }

    /// What holds of every Kafka event that this event can become for a
    /// project: an identifier or a time that the client gave is kept, and the
    /// clock and chance fill in only what was not given.
    pub open spec fn may_become(self, identity: ProjectIdentity, event: KafkaEvent) -> bool {
        &&& event == self.stamped_event(
            identity,
            event.event_id,
            event.occurred_at,
            event.received_at,
        )
        &&& match self.event_id {
            Some(id) => event.event_id == id,
            None => {
                &&& is_version_4(uuid_bytes(event.event_id))
                &&& call_ensures(Uuid::new_v4, (), event.event_id)
            },
        }
        &&& match self.occurred_at {
            Some(time) => event.occurred_at == time,
            None => event.occurred_at.is_clock_reading() && event.occurred_at.was_read(),
        }
        &&& event.received_at.is_clock_reading()
        &&& event.received_at.was_read()
    }

    /// Builds the Kafka event, with a random identifier and the current time
    /// where the client gave none. Which identifier is drawn is left to chance
    /// and which time is read to the clock.
    pub fn into_kafka_event(self, identity: ProjectIdentity) -> (event: KafkaEvent)
        ensures
            self.may_become(identity, event),
    {
        let event_id = match self.event_id {
            Some(id) => id,
            None => Uuid::new_v4(),
        };
        let occurred_at = match self.occurred_at {
            Some(time) => time,
            None => utc_now(),
        };
        let received_at = utc_now();
        self.stamped(identity, event_id, occurred_at, received_at)
    }
}

/// The version of the layout in which events travel through Kafka.
pub const SCHEMA_VERSION: u8 = 1;

/// An event as Kafka carries it.
#[derive(Debug)]
pub struct KafkaEvent {
    pub schema_version: u8,
    pub event_id: Uuid,
    pub tenant_id: String,
    pub project_id: String,
    pub event_type: EventType,
    pub occurred_at: Timestamp,
    pub received_at: Timestamp,
    pub event_name: Option<String>,
    pub actor_id: Option<String>,
    pub trace_id: Option<String>,
    pub payload: Value,
}

/// The key under which an event of a kind is published for a project of a
/// tenant.
pub open spec fn stream_key(
    tenant_id: Seq<char>,
    project_id: Seq<char>,
    event_type: EventType,
) -> Seq<char> {
    tenant_id + ":"@ + project_id + ":"@ + event_type.name()
}

/// Events that share a key are of one kind.
pub proof fn stream_keys_tell_kinds_apart(
    tenant_a: Seq<char>,
    project_a: Seq<char>,
    kind_a: EventType,
    tenant_b: Seq<char>,
    project_b: Seq<char>,
    kind_b: EventType,
)
    requires
        stream_key(tenant_a, project_a, kind_a) == stream_key(tenant_b, project_b, kind_b),
    ensures
        kind_a == kind_b,
        tenant_a + ":"@ + project_a == tenant_b + ":"@ + project_b,
{
    reveal_strlit(":");
    event_type_names_are_distinct(kind_a, kind_b);
    event_type_names_are_distinct(kind_b, kind_a);
    let owner_a = tenant_a + ":"@ + project_a;
    let owner_b = tenant_b + ":"@ + project_b;
    let key = stream_key(tenant_a, project_a, kind_a);
    assert(key == owner_a + ":"@ + kind_a.name());
    assert(key == owner_b + ":"@ + kind_b.name());
    if owner_a.len() < owner_b.len() {
        assert(key[owner_b.len() as int] == ':');
        assert(kind_a.name()[owner_b.len() - owner_a.len() - 1] == ':');
    }
    if owner_b.len() < owner_a.len() {
        assert(key[owner_a.len() as int] == ':');
        assert(kind_b.name()[owner_a.len() - owner_b.len() - 1] == ':');
    }
    assert(owner_a =~= key.take(owner_a.len() as int));
    assert(owner_b =~= key.take(owner_b.len() as int));
    assert(kind_a.name() =~= key.skip(owner_a.len() as int + 1));
    assert(kind_b.name() =~= key.skip(owner_b.len() as int + 1));
}

/// Events that share a key belong to one tenant, one project and one kind,
/// unless one tenant id followed by a colon begins the other.
pub proof fn stream_keys_tell_streams_apart(
    tenant_a: Seq<char>,
    project_a: Seq<char>,
    kind_a: EventType,
    tenant_b: Seq<char>,
    project_b: Seq<char>,
    kind_b: EventType,
)
    requires
        stream_key(tenant_a, project_a, kind_a) == stream_key(tenant_b, project_b, kind_b),
        !(tenant_a + ":"@).is_prefix_of(tenant_b),
        !(tenant_b + ":"@).is_prefix_of(tenant_a),
    ensures
        tenant_a == tenant_b,
        project_a == project_b,
        kind_a == kind_b,
{
    stream_keys_tell_kinds_apart(tenant_a, project_a, kind_a, tenant_b, project_b, kind_b);
    reveal_strlit(":");
    let owner = tenant_a + ":"@ + project_a;
    assert(owner == tenant_b + ":"@ + project_b);
    if tenant_a.len() < tenant_b.len() {
        assert(tenant_a + ":"@ =~= owner.take(tenant_a.len() as int + 1));
        assert(tenant_a + ":"@ =~= tenant_b.take(tenant_a.len() as int + 1));
    }
    if tenant_b.len() < tenant_a.len() {
        assert(tenant_b + ":"@ =~= owner.take(tenant_b.len() as int + 1));
        assert(tenant_b + ":"@ =~= tenant_a.take(tenant_b.len() as int + 1));
    }
    assert(tenant_a =~= owner.take(tenant_a.len() as int));
    assert(tenant_b =~= owner.take(tenant_b.len() as int));
    assert(project_a =~= owner.skip(tenant_a.len() as int + 1));
    assert(project_b =~= owner.skip(tenant_b.len() as int + 1));
}

/// Where tenant ids hold no colon, a key stands for exactly one tenant, project
/// and kind.
pub proof fn stream_keys_are_unique_for_plain_tenants(
    tenant_a: Seq<char>,
    project_a: Seq<char>,
    kind_a: EventType,
    tenant_b: Seq<char>,
    project_b: Seq<char>,
    kind_b: EventType,
)
    requires
        !tenant_a.contains(':'),
        !tenant_b.contains(':'),
    ensures
        stream_key(tenant_a, project_a, kind_a) == stream_key(tenant_b, project_b, kind_b) <==> (
        tenant_a == tenant_b && project_a == project_b && kind_a == kind_b),
{
    reveal_strlit(":");
    if (tenant_a + ":"@).is_prefix_of(tenant_b) {
        assert(tenant_b[tenant_a.len() as int] == (tenant_a + ":"@)[tenant_a.len() as int]);
    }
    if (tenant_b + ":"@).is_prefix_of(tenant_a) {
        assert(tenant_a[tenant_b.len() as int] == (tenant_b + ":"@)[tenant_b.len() as int]);
    }
    if stream_key(tenant_a, project_a, kind_a) == stream_key(tenant_b, project_b, kind_b) {
        stream_keys_tell_streams_apart(tenant_a, project_a, kind_a, tenant_b, project_b, kind_b);
    }
}

impl KafkaEvent {
    /// The key of the event's Kafka record. Events of one kind in one project
    /// share it, so that they stay in order within a partition.
    pub fn partition_key(&self) -> (key: String)
        ensures
            key@ == stream_key(self.tenant_id@, self.project_id@, self.event_type),
    {
        let mut key = self.tenant_id.clone();
        key.append(":");
        key.append(self.project_id.as_str());
        key.append(":");
        key.append(self.event_type.as_str());
        key
    }

    /// Whether the event is the trace event of an OTLP export for a project,
    /// whatever its identifier and its times.
    pub open spec fn is_otlp_trace(self, identity: ProjectIdentity, payload: Value) -> bool {
        &&& self.schema_version == SCHEMA_VERSION
        &&& self.tenant_id == identity.tenant_id
        &&& self.project_id == identity.project_id
        &&& self.event_type == EventType::Trace
        &&& optional_text(self.event_name) == Some("otlp.trace.export"@)
        &&& self.actor_id is None
        &&& self.trace_id is None
        &&& self.payload == payload
    }

    /// Builds the trace event of an OTLP export with a given identifier and
    /// given times.
    pub fn otlp_trace_stamped(
        identity: ProjectIdentity,
        payload: Value,
        event_id: Uuid,
        occurred_at: Timestamp,
        received_at: Timestamp,
    ) -> (event: Self)
        ensures
            event.is_otlp_trace(identity, payload),
            event.event_id == event_id,
            event.occurred_at == occurred_at,
            event.received_at == received_at,
    {
        KafkaEvent {
            schema_version: SCHEMA_VERSION,
            event_id,
            tenant_id: identity.tenant_id,
            project_id: identity.project_id,
            event_type: EventType::Trace,
            occurred_at,
            received_at,
            event_name: Some("otlp.trace.export".to_owned()),
            actor_id: None,
            trace_id: None,
            payload,
        }
    }

    /// Builds the trace event of an OTLP export, with a random identifier and
    /// the current time. Which identifier is drawn is left to chance and which
    /// times are read to the clock.
    pub fn otlp_trace(identity: ProjectIdentity, payload: Value) -> (event: Self)
        ensures
            event.is_otlp_trace(identity, payload),
            is_version_4(uuid_bytes(event.event_id)),
            call_ensures(Uuid::new_v4, (), event.event_id),
            event.occurred_at.is_clock_reading(),
            event.occurred_at.was_read(),
            event.received_at.is_clock_reading(),
            event.received_at.was_read(),
    {
        let event_id = Uuid::new_v4();
        let occurred_at = utc_now();
        let received_at = utc_now();
        KafkaEvent::otlp_trace_stamped(identity, payload, event_id, occurred_at, received_at)
    }
}

} // verus!
