use jsexpert_stream::config::Config;
use jsexpert_stream::domain::event::{EventType, KafkaEvent, Timestamp};
use jsexpert_stream::infrastructure::consumer::EventConsumer;
use jsexpert_stream::transport::kafka::{EventPublisher, Setting};
use serde_json::Value;
use uuid::Uuid;

fn config() -> Config {
    Config {
        listen_addr: "addr".into(),
        database_url: "db".into(),
        clickhouse_url: "store".into(),
        kafka_brokers: "broker:9092".into(),
        topic_prefix: "jsexpert.events".into(),
        consumer_group: "group".into(),
        max_event_bytes: 10,
    }
}

fn pairs(settings: &[Setting]) -> Vec<(&str, &str)> {
    settings
        .iter()
        .map(|setting| (setting.key, setting.value.as_str()))
        .collect()
}

#[test]
fn producers_are_durable() {
    let (publisher, settings) = EventPublisher::connect(config());
    assert_eq!(publisher.config.kafka_brokers, "broker:9092");
    assert_eq!(
        pairs(&settings),
        vec![
            ("bootstrap.servers", "broker:9092"),
            ("enable.idempotence", "true"),
            ("acks", "all"),
            ("retries", "2147483647"),
            ("max.in.flight.requests.per.connection", "5"),
            ("compression.type", "zstd"),
            ("delivery.timeout.ms", "30000"),
        ]
    );
}

#[test]
fn consumers_do_not_commit_by_themselves() {
    let (_, settings) = EventConsumer::connect(config());
    assert_eq!(
        pairs(&settings),
        vec![
            ("bootstrap.servers", "broker:9092"),
            ("group.id", "group"),
            ("enable.auto.commit", "false"),
            ("enable.auto.offset.store", "false"),
            ("auto.offset.reset", "earliest"),
            ("session.timeout.ms", "45000"),
            ("max.poll.interval.ms", "300000"),
        ]
    );
}

#[test]
fn events_go_to_their_topic_under_their_key() {
    let (publisher, _) = EventPublisher::connect(config());
    let record = publisher.publish(KafkaEvent {
        schema_version: 1,
        event_id: Uuid::from_u128(3),
        tenant_id: "t".into(),
        project_id: "p".into(),
        event_type: EventType::Error,
        occurred_at: Timestamp { secs: 0, nanos: 0 },
        received_at: Timestamp { secs: 0, nanos: 0 },
        event_name: None,
        actor_id: None,
        trace_id: None,
        payload: Value::from("x"),
    });
    assert_eq!(record.topic, "jsexpert.events.error");
    assert_eq!(record.key, "t:p:error");
    assert_eq!(record.event.event_id, Uuid::from_u128(3));
}

#[test]
fn dead_letters_hold_reason_time_and_payload() {
    let (publisher, _) = EventPublisher::connect(config());
    let letter = publisher
        .dead_letter("expected value", "2024-01-02T03:04:05Z", b"not json")
        .unwrap();
    assert_eq!(letter.topic, "jsexpert.events.dlq");
    assert_eq!(letter.key, "consumer-decode-error");
    assert_eq!(
        letter.body,
        "{\"payload\":\"not json\",\"reason\":\"expected value\",\"received_at\":\"2024-01-02T03:04:05Z\"}"
    );
}

#[test]
fn dead_letters_hold_text_as_it_is() {
    let (publisher, _) = EventPublisher::connect(config());
    let letter = publisher.clone().dead_letter_of_text("r", "t", "a\u{fffd}\"b").unwrap();
    assert_eq!(letter.topic, "jsexpert.events.dlq");
    assert_eq!(letter.key, "consumer-decode-error");
    assert_eq!(
        letter.body,
        "{\"payload\":\"a\u{fffd}\\\"b\",\"reason\":\"r\",\"received_at\":\"t\"}"
    );
}

#[test]
fn dead_letters_replace_what_is_not_text() {
    let (publisher, _) = EventPublisher::connect(config());
    let letter = publisher.dead_letter("r", "t", b"a\xffb").unwrap();
    assert_eq!(
        letter.body,
        "{\"payload\":\"a\u{fffd}b\",\"reason\":\"r\",\"received_at\":\"t\"}"
    );
}

#[test]
fn dead_letters_tell_the_current_time() {
    let (publisher, _) = EventPublisher::connect(config());
    let before = chrono::Utc::now();
    let letter = publisher.publish_dlq("r", b"p").unwrap();
    let after = chrono::Utc::now();
    let body: Value = serde_json::from_str(&letter.body).unwrap();
    assert_eq!(body.get("reason").and_then(Value::as_str), Some("r"));
    assert_eq!(body.get("payload").and_then(Value::as_str), Some("p"));
    let time = body.get("received_at").and_then(Value::as_str).unwrap();
    let time = chrono::DateTime::parse_from_rfc3339(time).unwrap();
    assert!(before <= time && time <= after);
    assert_eq!(
        body.get("received_at").cloned().unwrap(),
        serde_json::to_value(time.with_timezone(&chrono::Utc)).unwrap()
    );
}
