use chrono::Utc;
use jsexpert_stream::domain::event::{EventType, KafkaEvent, Timestamp};
use jsexpert_stream::infrastructure::clickhouse::{
    error_fingerprint, error_source, payload_string, StoredEvent,
};
use jsexpert_stream::text::lower_hex;
use serde_json::Value;
use uuid::Uuid;

fn now() -> Timestamp {
    let now = Utc::now();
    Timestamp {
        secs: now.timestamp(),
        nanos: now.timestamp_subsec_nanos(),
    }
}

fn object(members: &[(&str, Value)]) -> Value {
    let mut map = serde_json::Map::new();
    for (key, value) in members {
        map.insert(key.to_string(), value.clone());
    }
    Value::Object(map)
}

fn event(event_type: EventType, payload: Value) -> KafkaEvent {
    KafkaEvent {
        schema_version: 1,
        event_id: Uuid::nil(),
        tenant_id: "tenant".into(),
        project_id: "project".into(),
        event_type,
        occurred_at: now(),
        received_at: now(),
        event_name: None,
        actor_id: None,
        trace_id: None,
        payload,
    }
}

fn type_error() -> Value {
    object(&[
        ("name", Value::from("TypeError")),
        ("message", Value::from("bad")),
        ("stack", Value::from("at one")),
    ])
}

#[test]
fn error_fingerprint_is_stable() {
    let event = KafkaEvent {
        schema_version: 1,
        event_id: Uuid::nil(),
        tenant_id: "tenant".into(),
        project_id: "project".into(),
        event_type: EventType::Error,
        occurred_at: now(),
        received_at: now(),
        event_name: None,
        actor_id: None,
        trace_id: None,
        payload: object(&[
            ("name", Value::from("TypeError")),
            ("message", Value::from("bad")),
            ("stack", Value::from("at one")),
        ]),
    };

    assert_eq!(error_fingerprint(&event), error_fingerprint(&event));
}

#[test]
fn error_fingerprint_is_the_digest_of_name_message_and_stack() {
    assert_eq!(error_source(&type_error()), "TypeError|bad|at one");
    assert_eq!(
        error_fingerprint(&event(EventType::Error, type_error())),
        "59cd38423b96ab388458f9364c01202b8083d4e1686508d8894294b4d703523e"
    );
}

#[test]
fn error_fingerprint_ignores_the_rest_of_the_payload() {
    let payload = object(&[
        ("name", Value::from("TypeError")),
        ("message", Value::from("bad")),
        ("stack", Value::from("at one")),
        ("severity", Value::from(3)),
    ]);
    assert_eq!(
        error_fingerprint(&event(EventType::Error, payload)),
        error_fingerprint(&event(EventType::Error, type_error()))
    );
}

#[test]
fn error_fingerprint_tells_errors_apart() {
    let payload = object(&[
        ("name", Value::from("TypeError")),
        ("message", Value::from("worse")),
        ("stack", Value::from("at one")),
    ]);
    assert_ne!(
        error_fingerprint(&event(EventType::Error, payload)),
        error_fingerprint(&event(EventType::Error, type_error()))
    );
}

#[test]
fn missing_members_count_as_empty() {
    let payload = object(&[
        ("name", Value::from("TypeError")),
        ("message", Value::from("bad")),
        ("stack", Value::from(17)),
    ]);
    assert_eq!(
        error_fingerprint(&event(EventType::Error, payload)),
        "589dd51f10adcf2e34e41c42a26d99f4ccf9c4963a3f1977942b4b7f217fd0b1"
    );
    assert_eq!(
        error_fingerprint(&event(EventType::Error, Value::from("text"))),
        "565d240f5343e625ae579a4d45a770f1f02c6368b5ed4d06da4fbe6f47c28866"
    );
}

#[test]
fn only_errors_have_a_fingerprint() {
    assert_eq!(error_fingerprint(&event(EventType::Trace, type_error())), "");
    assert_eq!(error_fingerprint(&event(EventType::Activity, type_error())), "");
}

#[test]
fn payload_strings_are_string_members() {
    let payload = object(&[("a", Value::from("x")), ("b", Value::from(1)), ("c", Value::Null)]);
    assert_eq!(payload_string(&payload, "a"), "x");
    assert_eq!(payload_string(&payload, "b"), "");
    assert_eq!(payload_string(&payload, "c"), "");
    assert_eq!(payload_string(&payload, "d"), "");
    assert_eq!(payload_string(&Value::Array(vec![payload]), "a"), "");
}

#[test]
fn rows_hold_what_the_event_holds() {
    let mut activity = event(
        EventType::Activity,
        object(&[("page", Value::from("/dashboard")), ("depth", Value::from(2))]),
    );
    activity.event_id = Uuid::from_u128(5);
    activity.occurred_at = Timestamp { secs: 1, nanos: 2 };
    activity.received_at = Timestamp { secs: 3, nanos: 4 };
    activity.event_name = Some("dashboard_opened".into());
    activity.actor_id = Some("user-123".into());
    activity.trace_id = Some("trace-1".into());
    let stored = StoredEvent::from_event(&activity).unwrap();
    assert_eq!(stored.event_id, Uuid::from_u128(5));
    assert_eq!(stored.tenant_id, "tenant");
    assert_eq!(stored.project_id, "project");
    assert_eq!(stored.event_type, "activity");
    assert_eq!(stored.occurred_at, Timestamp { secs: 1, nanos: 2 });
    assert_eq!(stored.received_at, Timestamp { secs: 3, nanos: 4 });
    assert_eq!(stored.event_name, "dashboard_opened");
    assert_eq!(stored.actor_id, "user-123");
    assert_eq!(stored.trace_id, "trace-1");
    assert_eq!(stored.error_fingerprint, "");
    assert_eq!(stored.payload, "{\"depth\":2,\"page\":\"/dashboard\"}");
}

#[test]
fn rows_hold_empty_text_for_what_is_missing() {
    let stored = StoredEvent::from_event(&event(EventType::Error, type_error())).unwrap();
    assert_eq!(stored.event_name, "");
    assert_eq!(stored.actor_id, "");
    assert_eq!(stored.trace_id, "");
    assert_eq!(
        stored.error_fingerprint,
        error_fingerprint(&event(EventType::Error, type_error()))
    );
    assert_eq!(
        stored.payload,
        "{\"message\":\"bad\",\"name\":\"TypeError\",\"stack\":\"at one\"}"
    );
}

#[test]
fn null_payloads_are_stored_as_null() {
    let stored = StoredEvent::from_event(&event(EventType::Trace, Value::Null)).unwrap();
    assert_eq!(stored.payload, "null");
    let stored = StoredEvent::from_event(&event(EventType::Trace, Value::from("null"))).unwrap();
    assert_eq!(stored.payload, "\"null\"");
}

#[test]
fn hexadecimal_text_has_two_digits_per_byte() {
    assert_eq!(lower_hex(&[]), "");
    assert_eq!(lower_hex(&[0x00, 0x0f, 0xa9, 0xff]), "000fa9ff");
    let all: Vec<u8> = (0..=255).collect();
    let expected: String = all.iter().map(|byte| format!("{byte:02x}")).collect();
    assert_eq!(lower_hex(&all), expected);
}
