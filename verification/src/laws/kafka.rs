//! What is sent to Kafka.

use vstd::prelude::*;
use vstd::utf8::{decode_utf8_encode_utf8, encode_utf8, valid_utf8};

use crate::config::Config;
use crate::domain::event::{KafkaEvent, Timestamp};
use crate::laws::config::{
    dlq_topic_names_are_dead_letter_topics, is_dead_letter_topic_of, is_topic_of,
    topic_names_are_topics,
};
use crate::laws::event::{is_key_of, stream_keys_are_keys};
use crate::outside::{json_object_text, rfc3339, utf8_lossy};
use crate::transport::kafka::{
    producer_setup, setting_pairs, DeadLetter, EventPublisher, EventRecord, Setting,
};

verus! {

/// Whether a client is given a setting: the key is there, and wherever it is, the
/// value stands beside it.
pub open spec fn gives(settings: Seq<Setting>, key: Seq<char>, value: Seq<char>) -> bool {
    &&& exists|i: int|
        0 <= i < settings.len() && (#[trigger] settings[i]).key@ == key && settings[i].value@
            == value
    &&& forall|i: int|
        0 <= i < settings.len() && (#[trigger] settings[i]).key@ == key ==> settings[i].value@
            == value
}

/// A setting that is named once in a list is given.
pub(crate) proof fn settings_named_once_are_given(
    settings: Seq<Setting>,
    setup: Seq<(Seq<char>, Seq<char>)>,
    place: int,
)
    requires
        setting_pairs(settings) == setup,
        0 <= place < setup.len(),
        forall|i: int|
            0 <= i < setup.len() && i != place ==> (#[trigger] setup[i]).0 != setup[place].0,
    ensures
        gives(settings, setup[place].0, setup[place].1),
{
    assert(settings.len() == setup.len());
    assert forall|i: int| 0 <= i < settings.len() implies (#[trigger] settings[i]).key@
        == setup[i].0 && settings[i].value@ == setup[i].1 by {}
    assert(settings[place].key@ == setup[place].0);
}

/// A publisher works under the configuration that it is given. Its client talks
/// to the configured brokers, sends nothing twice, waits for every replica,
/// retries as often as it can count with at most five requests on their way, for
/// thirty seconds, and compresses what it sends.
pub proof fn publishers_are_durable(config: Config, connected: (EventPublisher, Vec<Setting>))
    requires
        call_ensures(EventPublisher::connect, (config,), connected),
    ensures
        connected.0.config == config,
        connected.1@.len() == 7,
        gives(connected.1@, "bootstrap.servers"@, config.kafka_brokers@),
        gives(connected.1@, "enable.idempotence"@, "true"@),
        gives(connected.1@, "acks"@, "all"@),
        gives(connected.1@, "retries"@, "2147483647"@),
        gives(connected.1@, "max.in.flight.requests.per.connection"@, "5"@),
        gives(connected.1@, "compression.type"@, "zstd"@),
        gives(connected.1@, "delivery.timeout.ms"@, "30000"@),
{
    reveal_strlit("bootstrap.servers");
    reveal_strlit("enable.idempotence");
    reveal_strlit("acks");
    reveal_strlit("retries");
    reveal_strlit("max.in.flight.requests.per.connection");
    reveal_strlit("compression.type");
    reveal_strlit("delivery.timeout.ms");
    let setup = producer_setup(config.kafka_brokers@);
    assert(setting_pairs(connected.1@).len() == connected.1@.len());
    assert forall|i: int, j: int| 0 <= i < j < setup.len() implies (#[trigger] setup[i]).0.len()
        != (#[trigger] setup[j]).0.len() by {}
    settings_named_once_are_given(connected.1@, setup, 0);
    settings_named_once_are_given(connected.1@, setup, 1);
    settings_named_once_are_given(connected.1@, setup, 2);
    settings_named_once_are_given(connected.1@, setup, 3);
    settings_named_once_are_given(connected.1@, setup, 4);
    settings_named_once_are_given(connected.1@, setup, 5);
    settings_named_once_are_given(connected.1@, setup, 6);
}

/// A copy of a publisher works under the same configuration.
pub proof fn publishers_are_copied(publisher: EventPublisher, copy: EventPublisher)
    requires
        call_ensures(<EventPublisher as Clone>::clone, (&publisher,), copy),
    ensures
        copy == publisher,
{
}

/// An event is sent as it is, to the topic of its kind under the configured
/// prefix, with a key that names its tenant, its project and its kind.
pub proof fn events_are_sent_to_their_stream(
    publisher: &EventPublisher,
    event: KafkaEvent,
    record: EventRecord,
)
    requires
        call_ensures(EventPublisher::publish, (publisher, event), record),
    ensures
        record.event == event,
        is_topic_of(record.topic@, publisher.config.topic_prefix@, event.event_type),
        is_key_of(record.key@, event.tenant_id@, event.project_id@, event.event_type),
{
    topic_names_are_topics(publisher.config.topic_prefix@, event.event_type);
    stream_keys_are_keys(event.tenant_id@, event.project_id@, event.event_type);
}

/// Whether a dead letter is that of a text, under a topic prefix: it goes to the
/// dead-letter topic and tells the reason, the time and the text, each in full.
pub open spec fn is_letter_of(
    letter: DeadLetter,
    prefix: Seq<char>,
    reason: Seq<char>,
    time: Seq<char>,
    text: Seq<char>,
) -> bool {
    &&& is_dead_letter_topic_of(letter.topic@, prefix)
    &&& letter.key@ == "consumer-decode-error"@
    &&& letter.body@ == json_object_text(
        map!["reason"@ => reason, "received_at"@ => time, "payload"@ => text],
    )
}

/// Whether a dead letter is that of a text, and tells a time that was read from
/// the clock.
pub open spec fn is_letter_now(
    letter: DeadLetter,
    prefix: Seq<char>,
    reason: Seq<char>,
    text: Seq<char>,
) -> bool {
    exists|now: Timestamp|
        {
            &&& #[trigger] now.was_read()
            &&& rfc3339(now.secs, now.nanos) matches Some(time)
            &&& is_letter_of(letter, prefix, reason, time, text)
        }
}

/// A dead letter that reports a text is the letter of the text.
proof fn reports_are_letters(
    letter: DeadLetter,
    prefix: Seq<char>,
    reason: Seq<char>,
    time: Seq<char>,
    text: Seq<char>,
)
    requires
        letter.reports(prefix, reason, time, text),
    ensures
        is_letter_of(letter, prefix, reason, time, text),
{
    dlq_topic_names_are_dead_letter_topics(prefix);
}

/// A dead letter that reports a text now tells a time that was read.
pub(crate) proof fn reports_now_are_letters_now(
    letter: DeadLetter,
    prefix: Seq<char>,
    reason: Seq<char>,
    text: Seq<char>,
)
    requires
        letter.reports_now(prefix, reason, text),
    ensures
        is_letter_now(letter, prefix, reason, text),
{
    let now = choose|now: Timestamp|
        #![trigger now.is_clock_reading()]
        now.is_clock_reading() && now.was_read() && letter.reports(
            prefix,
            reason,
            rfc3339(now.secs, now.nanos)->0,
            text,
        );
    reports_are_letters(letter, prefix, reason, rfc3339(now.secs, now.nanos)->0, text);
    assert(now.was_read());
}

/// The dead letter of a text tells it in full.
pub proof fn dead_letters_tell_their_text(
    publisher: &EventPublisher,
    reason: &str,
    received_at: &str,
    text: &str,
    letter: Result<DeadLetter, serde_json::Error>,
)
    requires
        call_ensures(
            EventPublisher::dead_letter_of_text,
            (publisher, reason, received_at, text),
            letter,
        ),
    ensures
        letter is Ok,
        is_letter_of(
            letter->Ok_0,
            publisher.config.topic_prefix@,
            reason@,
            received_at@,
            text@,
        ),
{
    reports_are_letters(
        letter->Ok_0,
        publisher.config.topic_prefix@,
        reason@,
        received_at@,
        text@,
    );
}

/// The dead letter of a payload tells it as text. Text comes out as it is, byte
/// for byte; what is not text is replaced.
pub proof fn dead_letters_tell_their_payload(
    publisher: &EventPublisher,
    reason: &str,
    received_at: &str,
    payload: &[u8],
    letter: Result<DeadLetter, serde_json::Error>,
)
    requires
        call_ensures(EventPublisher::dead_letter, (publisher, reason, received_at, payload), letter),
    ensures
        letter is Ok,
        is_letter_of(
            letter->Ok_0,
            publisher.config.topic_prefix@,
            reason@,
            received_at@,
            utf8_lossy(payload@),
        ),
        valid_utf8(payload@) ==> encode_utf8(utf8_lossy(payload@)) == payload@,
{
    reports_are_letters(
        letter->Ok_0,
        publisher.config.topic_prefix@,
        reason@,
        received_at@,
        utf8_lossy(payload@),
    );
    if valid_utf8(payload@) {
        decode_utf8_encode_utf8(payload@);
    }
}

/// A payload that is dead-lettered now is told with a time that was read from the
/// clock.
pub proof fn dead_letters_tell_the_time(
    publisher: &EventPublisher,
    reason: &str,
    payload: &[u8],
    letter: Result<DeadLetter, serde_json::Error>,
)
    requires
        call_ensures(EventPublisher::publish_dlq, (publisher, reason, payload), letter),
    ensures
        letter is Ok,
        is_letter_now(
            letter->Ok_0,
            publisher.config.topic_prefix@,
            reason@,
            utf8_lossy(payload@),
        ),
        valid_utf8(payload@) ==> encode_utf8(utf8_lossy(payload@)) == payload@,
{
    reports_now_are_letters_now(
        letter->Ok_0,
        publisher.config.topic_prefix@,
        reason@,
        utf8_lossy(payload@),
    );
    if valid_utf8(payload@) {
        decode_utf8_encode_utf8(payload@);
    }
}

} // verus!
