//! What is sent to Kafka, and how the clients that talk to it are set up.

use vstd::prelude::*;
use vstd::utf8::{decode_utf8, valid_utf8};

use crate::config::{dlq_topic_name, topic_name, Config};
use crate::domain::event::{stream_key, times_are_read_from_the_clock, KafkaEvent, Timestamp};
use crate::outside::{
    json_object, json_object_text, json_to_string, members_of, rfc3339, text_from_utf8_lossy,
    timestamp_to_rfc3339, utc_now, utf8_lossy,
};

verus! {

/// One setting of a Kafka client.
#[derive(Debug)]
pub struct Setting {
    pub key: &'static str,
    pub value: String,
}

/// The keys and values of a list of settings.
pub open spec fn setting_pairs(settings: Seq<Setting>) -> Seq<(Seq<char>, Seq<char>)> {
    settings.map_values(|setting: Setting| (setting.key@, setting.value@))
}

/// Whether a list of settings gives a key this value and no other.
pub open spec fn sets(
    settings: Seq<(Seq<char>, Seq<char>)>,
    key: Seq<char>,
    value: Seq<char>,
) -> bool {
    &&& settings.contains((key, value))
    &&& forall|i: int|
        0 <= i < settings.len() && (#[trigger] settings[i]).0 == key ==> settings[i].1 == value
}

/// Adds a setting at the end of a list.
pub(crate) fn add_setting(settings: &mut Vec<Setting>, key: &'static str, value: &str)
    ensures
        setting_pairs(final(settings)@) == setting_pairs(old(settings)@).push((key@, value@)),
{
    settings.push(Setting { key, value: value.to_owned() });
    assert(setting_pairs(settings@) =~= setting_pairs(old(settings)@).push((key@, value@)));
}

/// How the producer is set up.
pub open spec fn producer_setup(brokers: Seq<char>) -> Seq<(Seq<char>, Seq<char>)> {
    seq![
        ("bootstrap.servers"@, brokers),
        ("enable.idempotence"@, "true"@),
        ("acks"@, "all"@),
        ("retries"@, "2147483647"@),
        ("max.in.flight.requests.per.connection"@, "5"@),
        ("compression.type"@, "zstd"@),
        ("delivery.timeout.ms"@, "30000"@),
    ]
}

/// The record of an event: the topic and the key that it is sent under, and
/// the event that is its payload.
#[derive(Debug)]
pub struct EventRecord {
    pub topic: String,
    pub key: String,
    pub event: KafkaEvent,
}

impl EventRecord {
    /// Whether the record is addressed, under a topic prefix, as its event asks:
    /// to the topic of its kind, with the key of its tenant, project and kind.
    pub open spec fn is_addressed(self, prefix: Seq<char>) -> bool {
        &&& self.topic@ == topic_name(prefix, self.event.event_type)
        &&& self.key@ == stream_key(
            self.event.tenant_id@,
            self.event.project_id@,
            self.event.event_type,
        )
    }
}

/// The record of a message that could not be decoded: the topic and the key
/// that it is sent under, and the JSON text that is its payload.
#[derive(Debug)]
pub struct DeadLetter {
    pub topic: String,
    pub key: String,
    pub body: String,
}

/// The members of a dead letter's JSON object: why the message could not be
/// decoded, when it was found, and its text.
pub open spec fn dead_letter_members(
    reason: Seq<char>,
    received_at: Seq<char>,
    payload: Seq<char>,
) -> Map<Seq<char>, Seq<char>> {
    map!["reason"@ => reason, "received_at"@ => received_at, "payload"@ => payload]
}

impl DeadLetter {
    /// Whether this is the dead letter, under a topic prefix, of a text that
    /// could not be decoded for a reason and was found at a time.
    pub open spec fn reports(
        self,
        prefix: Seq<char>,
        reason: Seq<char>,
        received_at: Seq<char>,
        payload: Seq<char>,
    ) -> bool {
        &&& self.topic@ == dlq_topic_name(prefix)
        &&& self.key@ == "consumer-decode-error"@
        &&& self.body@ == json_object_text(dead_letter_members(reason, received_at, payload))
    }

    /// Whether this is the dead letter of a text, found at some time that the
    /// clock showed.
    pub open spec fn reports_now(
        self,
        prefix: Seq<char>,
        reason: Seq<char>,
        payload: Seq<char>,
    ) -> bool {
        exists|now: Timestamp|
            #![trigger now.is_clock_reading()]
            now.is_clock_reading() && now.was_read() && self.reports(
                prefix,
                reason,
                rfc3339(now.secs, now.nanos)->0,
                payload,
            )
    }
}

/// Routes what is published: every event to the topic of its kind, and every
/// message that could not be decoded to the dead-letter topic.
#[derive(Debug)]
pub struct EventPublisher {
    pub config: Config,
}

impl Clone for EventPublisher {
    fn clone(&self) -> (copy: Self)
        ensures
            copy == *self,
    {
        EventPublisher { config: self.config.clone() }
    }
}

impl EventPublisher {
    /// Sets a publisher up, with the settings of its client: idempotent,
    /// acknowledged by all replicas, retried, compressed.
    pub fn connect(config: Config) -> (connected: (Self, Vec<Setting>))
        ensures
            connected.0.config == config,
            setting_pairs(connected.1@) == producer_setup(config.kafka_brokers@),
    {
        let mut settings: Vec<Setting> = Vec::new();
        add_setting(&mut settings, "bootstrap.servers", config.kafka_brokers.as_str());
        add_setting(&mut settings, "enable.idempotence", "true");
        add_setting(&mut settings, "acks", "all");
        add_setting(&mut settings, "retries", "2147483647");
        add_setting(&mut settings, "max.in.flight.requests.per.connection", "5");
        add_setting(&mut settings, "compression.type", "zstd");
        add_setting(&mut settings, "delivery.timeout.ms", "30000");
        assert(setting_pairs(settings@) =~= producer_setup(config.kafka_brokers@));
        (EventPublisher { config }, settings)
    }

    /// The record under which an event is sent.
    pub fn publish(&self, event: KafkaEvent) -> (record: EventRecord)
        ensures
            record.event == event,
            record.is_addressed(self.config.topic_prefix@),
    {
        let topic = self.config.topic(event.event_type);
        let key = event.partition_key();
        EventRecord { topic, key, event }
    }

    /// The dead letter of a text that was found at a given time, which is written
    /// as text.
    pub fn dead_letter_of_text(&self, reason: &str, received_at: &str, payload: &str) -> (letter:
        Result<DeadLetter, serde_json::Error>)
        ensures
            letter is Ok,
            letter->Ok_0.reports(self.config.topic_prefix@, reason@, received_at@, payload@),
    {
        let mut pairs: Vec<(String, String)> = Vec::new();
        pairs.push(("reason".to_owned(), reason.to_owned()));
        pairs.push(("received_at".to_owned(), received_at.to_owned()));
        pairs.push(("payload".to_owned(), payload.to_owned()));
        proof {
            reveal_strlit("reason");
            reveal_strlit("received_at");
            reveal_strlit("payload");
            assert(pairs@[0].0@.len() == 6 && pairs@[1].0@.len() == 11 && pairs@[2].0@.len() == 7);
            reveal_with_fuel(members_of, 4);
            assert(members_of(pairs@) =~= dead_letter_members(reason@, received_at@, payload@));
        }
        let body = json_object(pairs);
        match json_to_string(&body) {
            Ok(body) => Ok(
                DeadLetter {
                    topic: self.config.dlq_topic(),
                    key: "consumer-decode-error".to_owned(),
                    body,
                },
            ),
            Err(error) => Err(error),
        }
    }

    /// The dead letter of a payload that was found at a given time, which is
    /// written as text. What is not UTF-8 in the payload is replaced.
    pub fn dead_letter(&self, reason: &str, received_at: &str, payload: &[u8]) -> (letter: Result<
        DeadLetter,
        serde_json::Error,
    >)
        ensures
            letter is Ok,
            letter->Ok_0.reports(
                self.config.topic_prefix@,
                reason@,
                received_at@,
                utf8_lossy(payload@),
            ),
            valid_utf8(payload@) ==> utf8_lossy(payload@) == decode_utf8(payload@),
    {
        let text = text_from_utf8_lossy(payload);
        self.dead_letter_of_text(reason, received_at, text.as_str())
    }

    /// The dead letter of a payload that is found now. Text that is not UTF-8 is
    /// replaced in it. Which time it gives is left to the clock.
    pub fn publish_dlq(&self, reason: &str, payload: &[u8]) -> (letter: Result<
        DeadLetter,
        serde_json::Error,
    >)
        ensures
            letter is Ok,
            letter->Ok_0.reports_now(self.config.topic_prefix@, reason@, utf8_lossy(payload@)),
            valid_utf8(payload@) ==> utf8_lossy(payload@) == decode_utf8(payload@),
    {
        let now = utc_now();
        proof {
            times_are_read_from_the_clock(now);
        }
        let received_at = timestamp_to_rfc3339(now).unwrap();
        self.dead_letter(reason, received_at.as_str(), payload)
    }
}

/// A list of settings gives a key that it names once the value beside it.
pub(crate) proof fn sets_a_key_named_once(settings: Seq<(Seq<char>, Seq<char>)>, place: int)
    requires
        0 <= place < settings.len(),
        forall|i: int|
            0 <= i < settings.len() && i != place ==> (#[trigger] settings[i]).0
                != settings[place].0,
    ensures
        sets(settings, settings[place].0, settings[place].1),
{
    assert(settings.contains(settings[place]));
}

/// The producer is idempotent, waits for every replica, retries as often as the
/// client can count and compresses what it sends.
pub proof fn producer_is_durable(brokers: Seq<char>)
    ensures
        sets(producer_setup(brokers), "enable.idempotence"@, "true"@),
        sets(producer_setup(brokers), "acks"@, "all"@),
        sets(producer_setup(brokers), "retries"@, "2147483647"@),
        sets(producer_setup(brokers), "compression.type"@, "zstd"@),
{
    reveal_strlit("bootstrap.servers");
    reveal_strlit("enable.idempotence");
    reveal_strlit("acks");
    reveal_strlit("retries");
    reveal_strlit("max.in.flight.requests.per.connection");
    reveal_strlit("compression.type");
    reveal_strlit("delivery.timeout.ms");
    let setup = producer_setup(brokers);
    assert forall|i: int, j: int| 0 <= i < j < setup.len() implies (#[trigger] setup[i]).0.len()
        != (#[trigger] setup[j]).0.len() by {}
    sets_a_key_named_once(setup, 1);
    sets_a_key_named_once(setup, 2);
    sets_a_key_named_once(setup, 3);
    sets_a_key_named_once(setup, 5);
}

} // verus!
