use chrono::Utc;
use jsexpert_stream::domain::event::{
    validate_length, EventType, IncomingEvent, KafkaEvent, ProjectIdentity, Timestamp,
    SCHEMA_VERSION,
};
use serde_json::Value;
use uuid::Uuid;

fn now() -> Timestamp {
    let now = Utc::now();
    Timestamp {
        secs: now.timestamp(),
        nanos: now.timestamp_subsec_nanos(),
    }
}

fn object(members: &[(&str, &str)]) -> Value {
    members
        .iter()
        .map(|(key, value)| (key.to_string(), Value::from(*value)))
        .collect()
}

fn identity() -> ProjectIdentity {
    ProjectIdentity {
        project_id: "project-b".into(),
        tenant_id: "tenant-a".into(),
    }
}

fn incoming() -> IncomingEvent {
    IncomingEvent {
        event_id: None,
        event_type: EventType::Activity,
        occurred_at: None,
        event_name: Some("dashboard_opened".into()),
        actor_id: Some("user-123".into()),
        trace_id: None,
        payload: object(&[("page", "/dashboard")]),
    }
}

fn keyed(tenant: &str, project: &str, event_type: EventType) -> String {
    KafkaEvent {
        schema_version: 1,
        event_id: Uuid::nil(),
        tenant_id: tenant.into(),
        project_id: project.into(),
        event_type,
        occurred_at: now(),
        received_at: now(),
        event_name: None,
        actor_id: None,
        trace_id: None,
        payload: Value::Null,
    }
    .partition_key()
}

#[test]
fn partition_key_keeps_a_project_event_stream_together() {
    let event = KafkaEvent {
        schema_version: 1,
        event_id: Uuid::nil(),
        tenant_id: "tenant-a".into(),
        project_id: "project-b".into(),
        event_type: EventType::Activity,
        occurred_at: now(),
        received_at: now(),
        event_name: None,
        actor_id: None,
        trace_id: None,
        payload: Value::Object(serde_json::Map::new()),
    };

    assert_eq!(event.partition_key(), "tenant-a:project-b:activity");
}

#[test]
fn partition_keys_tell_streams_apart() {
    let key = keyed("t", "p", EventType::Trace);
    assert_eq!(key, "t:p:trace");
    assert_ne!(key, keyed("t", "p", EventType::Error));
    assert_ne!(key, keyed("t", "q", EventType::Trace));
    assert_ne!(key, keyed("u", "p", EventType::Trace));
    assert_eq!(key, keyed("t", "p", EventType::Trace));
}

#[test]
fn partition_keys_of_nested_tenant_ids_can_meet() {
    assert_eq!(
        keyed("a", "b:c", EventType::Error),
        keyed("a:b", "c", EventType::Error)
    );
}

#[test]
fn event_types_have_snake_case_names() {
    assert_eq!(EventType::Trace.as_str(), "trace");
    assert_eq!(EventType::Error.as_str(), "error");
    assert_eq!(EventType::Activity.as_str(), "activity");
}

#[test]
fn ordinary_events_are_valid() {
    assert_eq!(incoming().validate(), Ok(()));
}

#[test]
fn null_payloads_are_refused() {
    let mut event = incoming();
    event.payload = Value::Null;
    assert_eq!(event.validate(), Err("payload must not be null".to_string()));
}

#[test]
fn payloads_that_only_look_null_are_accepted() {
    let mut event = incoming();
    event.payload = Value::from("null");
    assert_eq!(event.validate(), Ok(()));
    event.payload = Value::from(false);
    assert_eq!(event.validate(), Ok(()));
    event.payload = Value::Array(Vec::new());
    assert_eq!(event.validate(), Ok(()));
}

#[test]
fn overlong_names_are_refused() {
    let mut event = incoming();
    event.event_name = Some("n".repeat(200));
    assert_eq!(event.validate(), Ok(()));
    event.event_name = Some("n".repeat(201));
    assert_eq!(
        event.validate(),
        Err("event_name must be 200 characters or fewer".to_string())
    );
}

#[test]
fn overlong_actors_are_refused() {
    let mut event = incoming();
    event.actor_id = Some("a".repeat(201));
    assert_eq!(
        event.validate(),
        Err("actor_id must be 200 characters or fewer".to_string())
    );
}

#[test]
fn the_first_fault_is_told() {
    let mut event = incoming();
    event.event_name = Some("n".repeat(201));
    event.actor_id = Some("a".repeat(201));
    assert_eq!(
        event.validate(),
        Err("event_name must be 200 characters or fewer".to_string())
    );
    event.payload = Value::Null;
    assert_eq!(event.validate(), Err("payload must not be null".to_string()));
}

#[test]
fn trace_ids_may_have_any_length() {
    let mut event = incoming();
    event.trace_id = Some("t".repeat(5000));
    assert_eq!(event.validate(), Ok(()));
}

#[test]
fn field_length_is_counted_in_bytes() {
    assert_eq!(validate_length("field", None), Ok(()));
    assert_eq!(validate_length("field", Some("")), Ok(()));
    let text = "\u{e9}".repeat(100);
    assert_eq!(validate_length("field", Some(&text)), Ok(()));
    let text = "\u{e9}".repeat(101);
    assert_eq!(
        validate_length("field", Some(&text)),
        Err("field must be 200 characters or fewer".to_string())
    );
}

#[test]
fn stamped_events_carry_what_they_are_given() {
    let id = Uuid::from_u128(7);
    let occurred = Timestamp { secs: 10, nanos: 1 };
    let received = Timestamp { secs: 20, nanos: 2 };
    let event = incoming().stamped(identity(), id, occurred, received);
    assert_eq!(event.schema_version, 1);
    assert_eq!(event.schema_version, SCHEMA_VERSION);
    assert_eq!(event.event_id, id);
    assert_eq!(event.tenant_id, "tenant-a");
    assert_eq!(event.project_id, "project-b");
    assert_eq!(event.event_type, EventType::Activity);
    assert_eq!(event.occurred_at, occurred);
    assert_eq!(event.received_at, received);
    assert_eq!(event.event_name.as_deref(), Some("dashboard_opened"));
    assert_eq!(event.actor_id.as_deref(), Some("user-123"));
    assert_eq!(event.trace_id, None);
    assert_eq!(event.payload, object(&[("page", "/dashboard")]));
}

#[test]
fn given_ids_and_times_are_kept() {
    let mut input = incoming();
    input.event_id = Some(Uuid::from_u128(42));
    input.occurred_at = Some(Timestamp { secs: -5, nanos: 0 });
    let event = input.into_kafka_event(identity());
    assert_eq!(event.event_id, Uuid::from_u128(42));
    assert_eq!(event.occurred_at, Timestamp { secs: -5, nanos: 0 });
    assert!(event.received_at.secs > 1_500_000_000);
}

#[test]
fn missing_ids_and_times_are_filled_in() {
    let before = Utc::now().timestamp();
    let first = incoming().into_kafka_event(identity());
    let second = incoming().into_kafka_event(identity());
    let after = Utc::now().timestamp();
    assert_ne!(first.event_id, Uuid::nil());
    assert_ne!(first.event_id, second.event_id);
    assert_eq!(first.event_id.get_version_num(), 4);
    assert!(before <= first.occurred_at.secs && first.occurred_at.secs <= after);
    assert!(before <= first.received_at.secs && first.received_at.secs <= after);
    assert!(first.received_at.nanos < 1_000_000_000);
}

#[test]
fn identity_is_not_read_from_the_payload() {
    let mut input = incoming();
    input.payload = object(&[("tenant_id", "intruder"), ("project_id", "intruder")]);
    let event = input.into_kafka_event(identity());
    assert_eq!(event.tenant_id, "tenant-a");
    assert_eq!(event.project_id, "project-b");
}

#[test]
fn otlp_exports_are_trace_events() {
    let payload = object(&[("resourceSpans", "none")]);
    let event = KafkaEvent::otlp_trace(identity(), payload.clone());
    assert_eq!(event.schema_version, 1);
    assert_eq!(event.event_type, EventType::Trace);
    assert_eq!(event.event_name.as_deref(), Some("otlp.trace.export"));
    assert_eq!(event.actor_id, None);
    assert_eq!(event.trace_id, None);
    assert_eq!(event.tenant_id, "tenant-a");
    assert_eq!(event.project_id, "project-b");
    assert_eq!(event.payload, payload);
    assert_eq!(event.event_id.get_version_num(), 4);
}

#[test]
fn otlp_exports_carry_given_stamps() {
    let occurred = Timestamp { secs: 1, nanos: 2 };
    let received = Timestamp { secs: 3, nanos: 4 };
    let event = KafkaEvent::otlp_trace_stamped(
        identity(),
        Value::Null,
        Uuid::from_u128(9),
        occurred,
        received,
    );
    assert_eq!(event.event_id, Uuid::from_u128(9));
    assert_eq!(event.occurred_at, occurred);
    assert_eq!(event.received_at, received);
    assert_eq!(event.partition_key(), "tenant-a:project-b:trace");
}

#[test]
fn identities_can_be_cloned() {
    let copy = identity().clone();
    assert_eq!(copy.project_id, "project-b");
    assert_eq!(copy.tenant_id, "tenant-a");
}
