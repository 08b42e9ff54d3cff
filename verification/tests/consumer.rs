use jsexpert_stream::config::Config;
use jsexpert_stream::domain::event::{EventType, KafkaEvent, Timestamp};
use jsexpert_stream::infrastructure::consumer::{
    Command, Delivery, EventConsumer, Input, Phase, Position, RETRY_PAUSE_SECS,
};
use serde_json::Value;
use uuid::Uuid;

fn config() -> Config {
    Config {
        listen_addr: "addr".into(),
        database_url: "db".into(),
        clickhouse_url: "store".into(),
        kafka_brokers: "broker".into(),
        topic_prefix: "jsexpert.events".into(),
        consumer_group: "group".into(),
        max_event_bytes: 10,
    }
}

fn event() -> KafkaEvent {
    KafkaEvent {
        schema_version: 1,
        event_id: Uuid::from_u128(77),
        tenant_id: "t".into(),
        project_id: "p".into(),
        event_type: EventType::Activity,
        occurred_at: Timestamp { secs: 1, nanos: 0 },
        received_at: Timestamp { secs: 2, nanos: 0 },
        event_name: Some("opened".into()),
        actor_id: None,
        trace_id: None,
        payload: Value::from(true),
    }
}

fn polling() -> EventConsumer {
    let (mut consumer, _) = EventConsumer::connect(config());
    assert!(matches!(consumer.run(Input::Started), Some(Command::Subscribe(_))));
    assert!(matches!(consumer.run(Input::Finished), Some(Command::Poll)));
    consumer
}

fn position(topic: &str, partition: i32, offset: i64) -> Position {
    Position { topic: topic.into(), partition, offset }
}

fn message(payload: Option<&[u8]>) -> Input {
    Input::Delivered(Delivery {
        position: position("jsexpert.events.activity", 0, 1),
        payload: payload.map(|bytes| bytes.to_vec()),
    })
}

fn delivered(text: &[u8]) -> Input {
    message(Some(text))
}

/// Hands an event over from a place and answers its row with an outcome.
fn handle(consumer: &mut EventConsumer, place: (&str, i32, i64), outcome: Input) -> Option<Command> {
    let position = position(place.0, place.1, place.2);
    consumer.run(Input::Delivered(Delivery { position, payload: Some(b"{}".to_vec()) }));
    consumer.run(Input::Decoded(event()));
    consumer.run(outcome)
}

fn store(consumer: &mut EventConsumer, place: (&str, i32, i64)) -> Option<Command> {
    handle(consumer, place, Input::Finished)
}

fn fail(consumer: &mut EventConsumer, place: (&str, i32, i64)) {
    assert!(matches!(handle(consumer, place, Input::Failed), Some(Command::Pause(1))));
    assert!(matches!(consumer.run(Input::Finished), Some(Command::Poll)));
}

fn assert_committed(consumer: &mut EventConsumer, command: Option<Command>, place: (&str, i32, i64)) {
    match command {
        Some(Command::Commit(position)) => {
            assert_eq!((position.topic.as_str(), position.partition, position.offset), place);
        }
        other => panic!("{other:?}"),
    }
    assert!(matches!(consumer.run(Input::Finished), Some(Command::Poll)));
}

fn assert_withheld(consumer: &EventConsumer, command: Option<Command>) {
    assert!(matches!(command, Some(Command::Poll)), "{command:?}");
    assert!(matches!(consumer.phase, Phase::Polling));
}

fn body(command: Option<Command>) -> Value {
    match command {
        Some(Command::PublishDlq(letter)) => {
            assert_eq!(letter.topic, "jsexpert.events.dlq");
            assert_eq!(letter.key, "consumer-decode-error");
            serde_json::from_str(&letter.body).unwrap()
        }
        other => panic!("{other:?}"),
    }
}

fn member<'a>(body: &'a Value, key: &str) -> &'a str {
    body.get(key).and_then(Value::as_str).unwrap()
}

#[test]
fn consumers_subscribe_first() {
    let (mut consumer, _) = EventConsumer::connect(config());
    match consumer.run(Input::Started) {
        Some(Command::Subscribe(topics)) => assert_eq!(
            topics,
            vec![
                "jsexpert.events.trace".to_string(),
                "jsexpert.events.error".to_string(),
                "jsexpert.events.activity".to_string(),
            ]
        ),
        other => panic!("{other:?}"),
    }
    assert!(matches!(consumer.run(Input::Failed), Some(Command::Abort)));
    assert!(matches!(consumer.phase, Phase::Stopped));
}

#[test]
fn stored_events_are_committed() {
    let mut consumer = polling();
    match consumer.run(delivered(b"{}")) {
        Some(Command::Decode(text)) => assert_eq!(text, "{}"),
        other => panic!("{other:?}"),
    }
    match consumer.run(Input::Decoded(event())) {
        Some(Command::Persist(stored)) => {
            assert_eq!(stored.event_id, Uuid::from_u128(77));
            assert_eq!(stored.event_name, "opened");
            assert_eq!(stored.payload, "true");
        }
        other => panic!("{other:?}"),
    }
    assert!(matches!(consumer.run(Input::Finished), Some(Command::Commit(_))));
    assert!(matches!(consumer.run(Input::Finished), Some(Command::Poll)));
    assert!(matches!(consumer.phase, Phase::Polling));
}

#[test]
fn events_that_cannot_be_stored_are_not_committed() {
    let mut consumer = polling();
    consumer.run(delivered(b"{}"));
    consumer.run(Input::Decoded(event()));
    match consumer.run(Input::Failed) {
        Some(Command::Pause(seconds)) => {
            assert_eq!(seconds, 1);
            assert_eq!(seconds, RETRY_PAUSE_SECS);
        }
        other => panic!("{other:?}"),
    }
    assert!(matches!(consumer.run(Input::Finished), Some(Command::Poll)));
}

#[test]
fn undecodable_messages_are_dead_lettered_and_committed() {
    let mut consumer = polling();
    consumer.run(delivered("h\u{e9}".as_bytes()));
    let body = body(consumer.run(Input::NotDecoded("expected value at line 1".into())));
    assert_eq!(member(&body, "reason"), "expected value at line 1");
    assert_eq!(member(&body, "payload"), "h\u{e9}");
    assert!(matches!(consumer.run(Input::Finished), Some(Command::Commit(_))));
    assert!(matches!(consumer.run(Input::Finished), Some(Command::Poll)));
}

#[test]
fn unreadable_messages_are_dead_lettered_without_payload() {
    let mut consumer = polling();
    let letter = body(consumer.run(delivered(b"\xff\xfe")));
    assert_eq!(member(&letter, "reason"), "message had no UTF-8 payload");
    assert_eq!(member(&letter, "payload"), "");
    assert!(matches!(consumer.run(Input::Finished), Some(Command::Commit(_))));
    consumer.run(Input::Finished);
    let letter = body(consumer.run(message(None)));
    assert_eq!(member(&letter, "reason"), "message had no UTF-8 payload");
}

#[test]
fn empty_messages_are_readable() {
    let mut consumer = polling();
    match consumer.run(delivered(b"")) {
        Some(Command::Decode(text)) => assert_eq!(text, ""),
        other => panic!("{other:?}"),
    }
}

#[test]
fn a_dead_letter_that_cannot_be_sent_ends_the_consumer() {
    let mut consumer = polling();
    consumer.run(message(None));
    assert!(matches!(consumer.run(Input::Failed), Some(Command::Abort)));
    assert!(matches!(consumer.phase, Phase::Stopped));
    assert!(consumer.run(Input::Finished).is_none());
}

#[test]
fn a_commit_that_fails_ends_the_consumer() {
    let mut consumer = polling();
    consumer.run(delivered(b"{}"));
    consumer.run(Input::Decoded(event()));
    consumer.run(Input::Finished);
    assert!(matches!(consumer.run(Input::Failed), Some(Command::Abort)));
}

#[test]
fn stream_errors_are_passed_over() {
    let mut consumer = polling();
    assert!(matches!(consumer.run(Input::StreamFailed), Some(Command::Poll)));
    assert!(matches!(consumer.run(Input::StreamEnded), Some(Command::Stop)));
    assert!(matches!(consumer.phase, Phase::Stopped));
}

#[test]
fn inputs_that_are_not_awaited_change_nothing() {
    let mut consumer = polling();
    assert!(consumer.run(Input::Finished).is_none());
    assert!(consumer.run(Input::Failed).is_none());
    assert!(consumer.run(Input::Started).is_none());
    assert!(consumer.run(Input::Decoded(event())).is_none());
    assert!(consumer.run(Input::NotDecoded("why".into())).is_none());
    assert!(matches!(consumer.phase, Phase::Polling));
    consumer.run(delivered(b"text"));
    assert!(consumer.run(delivered(b"other")).is_none());
    assert!(consumer.run(Input::StreamFailed).is_none());
    assert!(consumer.run(Input::StreamEnded).is_none());
    match &consumer.phase {
        Phase::Decoding(position, text) => {
            assert_eq!(position.offset, 1);
            assert_eq!(text, "text");
        }
        other => panic!("{other:?}"),
    }
}

#[test]
fn an_unstored_event_holds_higher_offsets_back() {
    let mut consumer = polling();
    let committed = store(&mut consumer, ("a", 0, 10));
    assert_committed(&mut consumer, committed, ("a", 0, 10));
    fail(&mut consumer, ("a", 0, 11));
    let command = store(&mut consumer, ("a", 0, 12));
    assert_withheld(&consumer, command);
    let command = store(&mut consumer, ("a", 0, 13));
    assert_withheld(&consumer, command);
}

#[test]
fn other_partitions_go_on() {
    let mut consumer = polling();
    fail(&mut consumer, ("a", 0, 11));
    let command = store(&mut consumer, ("a", 1, 12));
    assert_committed(&mut consumer, command, ("a", 1, 12));
    let command = store(&mut consumer, ("b", 0, 12));
    assert_committed(&mut consumer, command, ("b", 0, 12));
    let command = store(&mut consumer, ("a", 0, 12));
    assert_withheld(&consumer, command);
}

#[test]
fn commits_resume_once_the_event_is_stored() {
    let mut consumer = polling();
    fail(&mut consumer, ("a", 0, 11));
    fail(&mut consumer, ("a", 0, 12));
    let command = store(&mut consumer, ("a", 0, 13));
    assert_withheld(&consumer, command);
    fail(&mut consumer, ("a", 0, 11));
    assert_eq!(consumer.unsettled.len(), 2);
    let command = store(&mut consumer, ("a", 0, 11));
    assert_committed(&mut consumer, command, ("a", 0, 11));
    let command = store(&mut consumer, ("a", 0, 13));
    assert_withheld(&consumer, command);
    let command = store(&mut consumer, ("a", 0, 12));
    assert_committed(&mut consumer, command, ("a", 0, 12));
    let command = store(&mut consumer, ("a", 0, 13));
    assert_committed(&mut consumer, command, ("a", 0, 13));
    assert!(consumer.unsettled.is_empty());
}

#[test]
fn lower_offsets_go_on() {
    let mut consumer = polling();
    fail(&mut consumer, ("a", 0, 5));
    fail(&mut consumer, ("a", 0, 7));
    let command = store(&mut consumer, ("a", 0, 5));
    assert_committed(&mut consumer, command, ("a", 0, 5));
    body(consumer.run(Input::Delivered(Delivery {
        position: position("a", 0, 6),
        payload: None,
    })));
    let command = consumer.run(Input::Finished);
    assert_committed(&mut consumer, command, ("a", 0, 6));
    consumer.run(Input::Delivered(Delivery {
        position: position("a", 0, 4),
        payload: Some(b"text".to_vec()),
    }));
    body(consumer.run(Input::NotDecoded("why".into())));
    let command = consumer.run(Input::Finished);
    assert_committed(&mut consumer, command, ("a", 0, 4));
    let command = store(&mut consumer, ("a", 0, 8));
    assert_withheld(&consumer, command);
}

#[test]
fn dead_letters_do_not_pass_over_an_unstored_event() {
    let mut consumer = polling();
    fail(&mut consumer, ("a", 0, 11));
    body(consumer.run(Input::Delivered(Delivery {
        position: position("a", 0, 12),
        payload: None,
    })));
    let command = consumer.run(Input::Finished);
    assert_withheld(&consumer, command);
    body(consumer.run(Input::Delivered(Delivery {
        position: position("a", 0, 11),
        payload: Some(b"\xff".to_vec()),
    })));
    let command = consumer.run(Input::Finished);
    assert_committed(&mut consumer, command, ("a", 0, 11));
}

#[test]
fn every_message_is_committed_withheld_or_set_aside() {
    let mut consumer = polling();
    let (mut commits, mut withheld, mut pauses) = (0, 0, 0);
    for round in 0..6 {
        let outcome = if round == 2 { Input::Failed } else { Input::Finished };
        match handle(&mut consumer, ("a", round % 2, i64::from(round)), outcome) {
            Some(Command::Commit(_)) => commits += 1,
            Some(Command::Pause(_)) => pauses += 1,
            Some(Command::Poll) => {
                withheld += 1;
                continue;
            }
            other => panic!("{other:?}"),
        }
        assert!(matches!(consumer.run(Input::Finished), Some(Command::Poll)));
    }
    assert_eq!((commits, withheld, pauses), (4, 1, 1));
}
