use axum::http::{HeaderMap, HeaderValue};
use jsexpert_stream::auth::ProjectLookup;
use jsexpert_stream::config::Config;
use jsexpert_stream::domain::event::{EventType, IncomingEvent, ProjectIdentity};
use jsexpert_stream::error::ApiError;
use jsexpert_stream::infrastructure::clickhouse::StoredEvent;
use jsexpert_stream::transport::http::{
    accept_event, ingest_event, ingest_otlp_trace, live, ready, Submission,
};
use jsexpert_stream::transport::kafka::EventPublisher;
use serde_json::Value;
use uuid::Uuid;

fn headers() -> HeaderMap {
    let mut map = HeaderMap::new();
    map.insert("clientid", HeaderValue::from_static("id"));
    map.insert("clientsecret", HeaderValue::from_static("secret"));
    map
}

fn incoming() -> IncomingEvent {
    IncomingEvent {
        event_id: Some(Uuid::from_u128(11)),
        event_type: EventType::Activity,
        occurred_at: None,
        event_name: Some("opened".into()),
        actor_id: Some("user-1".into()),
        trace_id: None,
        payload: Value::from(1),
    }
}

fn publisher() -> EventPublisher {
    let (publisher, _) = EventPublisher::connect(Config {
        listen_addr: "addr".into(),
        database_url: "db".into(),
        clickhouse_url: "store".into(),
        kafka_brokers: "broker".into(),
        topic_prefix: "events".into(),
        consumer_group: "group".into(),
        max_event_bytes: 10,
    });
    publisher
}

fn found() -> ProjectLookup {
    ProjectLookup::Found(ProjectIdentity {
        project_id: "p".into(),
        tenant_id: "t".into(),
    })
}

#[test]
fn events_are_admitted_published_and_answered() {
    let admitted = ingest_event(&headers(), incoming()).unwrap();
    assert_eq!(admitted.credentials.client_id, "id");
    assert_eq!(admitted.credentials.client_secret, "secret");
    assert!(matches!(admitted.submission, Submission::Event(_)));
    let record = admitted.into_record(found(), &publisher()).unwrap();
    assert_eq!(record.topic, "events.activity");
    assert_eq!(record.key, "t:p:activity");
    assert_eq!(record.event.tenant_id, "t");
    assert_eq!(record.event.project_id, "p");
    let accepted = accept_event(record.event.event_id, true).unwrap();
    assert_eq!(accepted.status_code, 202);
    assert_eq!(accepted.status, "accepted");
    assert_eq!(accepted.event_id, Uuid::from_u128(11));
}

#[test]
fn given_event_ids_reach_the_store() {
    let admitted = ingest_event(&headers(), incoming()).unwrap();
    let record = admitted.into_record(found(), &publisher()).unwrap();
    let stored = StoredEvent::from_event(&record.event).unwrap();
    assert_eq!(stored.event_id, Uuid::from_u128(11));
    assert_eq!(stored.event_name, "opened");
    assert_eq!(stored.actor_id, "user-1");
    assert_eq!(stored.payload, "1");
}

#[test]
fn faulty_events_are_refused_before_their_credentials() {
    let mut input = incoming();
    input.payload = Value::Null;
    match ingest_event(&HeaderMap::new(), input) {
        Err(ApiError::BadRequest(message)) => assert_eq!(message, "payload must not be null"),
        other => panic!("{other:?}"),
    }
}

#[test]
fn events_without_credentials_are_refused() {
    assert!(matches!(
        ingest_event(&HeaderMap::new(), incoming()),
        Err(ApiError::Unauthorized)
    ));
}

#[test]
fn unknown_projects_publish_nothing() {
    let admitted = ingest_event(&headers(), incoming()).unwrap();
    assert!(matches!(
        admitted.into_record(ProjectLookup::NotFound, &publisher()),
        Err(ApiError::Unauthorized)
    ));
    let admitted = ingest_event(&headers(), incoming()).unwrap();
    assert!(matches!(
        admitted.into_record(ProjectLookup::Failed, &publisher()),
        Err(ApiError::Unavailable)
    ));
}

#[test]
fn exports_are_published_as_traces() {
    let admitted = ingest_otlp_trace(&headers(), Value::from("export")).unwrap();
    let record = admitted.into_record(found(), &publisher()).unwrap();
    assert_eq!(record.topic, "events.trace");
    assert_eq!(record.key, "t:p:trace");
    assert_eq!(record.event.event_name.as_deref(), Some("otlp.trace.export"));
    assert_eq!(record.event.payload, Value::from("export"));
}

#[test]
fn exports_are_not_validated() {
    assert!(ingest_otlp_trace(&headers(), Value::Null).is_ok());
    assert!(matches!(
        ingest_otlp_trace(&HeaderMap::new(), Value::Null),
        Err(ApiError::Unauthorized)
    ));
}

#[test]
fn records_that_cannot_be_sent_are_unavailable() {
    assert!(matches!(
        accept_event(Uuid::nil(), false),
        Err(ApiError::Unavailable)
    ));
}

#[test]
fn probes_are_answered_without_content() {
    assert_eq!(live(), 204);
    assert_eq!(ready(true).unwrap(), 204);
    assert!(matches!(ready(false), Err(ApiError::Unavailable)));
}
