//! What the consumer does, step by step.

use vstd::prelude::*;
use vstd::utf8::{decode_utf8, decode_utf8_encode_utf8, encode_utf8, valid_utf8};

use crate::config::{texts, Config};
use crate::domain::event::{EventType, KafkaEvent};
use crate::infrastructure::consumer::{
    consumer_setup, holds_back, places, Command, Delivery, EventConsumer, Input, Phase, Place,
    Position,
};
use crate::laws::config::{is_topic_of, topic_names_are_topics};
use crate::laws::kafka::{
    gives, is_letter_now, reports_now_are_letters_now, settings_named_once_are_given,
};
use crate::laws::store::{is_member_text, is_row_of, names_error, stored_events_are_rows};
use crate::laws::text::spells_bytes;
use crate::outside::sha256;
use crate::transport::kafka::{setting_pairs, Setting};

verus! {

/// A consumer begins with nothing asked for and no message kept. Its client talks
/// to the configured brokers for the configured group, commits nothing by
/// itself, begins with the earliest message, and is given up after forty-five
/// seconds of silence or five minutes without a poll.
pub proof fn consumers_begin_afresh(config: Config, connected: (EventConsumer, Vec<Setting>))
    requires
        call_ensures(EventConsumer::connect, (config,), connected),
    ensures
        connected.0.publisher.config == config,
        connected.0.phase is Connected,
        connected.0.unsettled@.len() == 0,
        connected.1@.len() == 7,
        gives(connected.1@, "bootstrap.servers"@, config.kafka_brokers@),
        gives(connected.1@, "group.id"@, config.consumer_group@),
        gives(connected.1@, "enable.auto.commit"@, "false"@),
        gives(connected.1@, "enable.auto.offset.store"@, "false"@),
        gives(connected.1@, "auto.offset.reset"@, "earliest"@),
        gives(connected.1@, "session.timeout.ms"@, "45000"@),
        gives(connected.1@, "max.poll.interval.ms"@, "300000"@),
{
    reveal_strlit("bootstrap.servers");
    reveal_strlit("group.id");
    reveal_strlit("enable.auto.commit");
    reveal_strlit("enable.auto.offset.store");
    reveal_strlit("auto.offset.reset");
    reveal_strlit("session.timeout.ms");
    reveal_strlit("max.poll.interval.ms");
    let setup = consumer_setup(config.kafka_brokers@, config.consumer_group@);
    assert(setting_pairs(connected.1@).len() == connected.1@.len());
    assert forall|i: int, j: int| 0 <= i < setup.len() && 0 <= j < setup.len() && i != j implies (
    #[trigger] setup[i]).0 != (#[trigger] setup[j]).0 by {
        assert(setup[i].0.len() != setup[j].0.len() || setup[i].0[0] != setup[j].0[0]);
    }
    settings_named_once_are_given(connected.1@, setup, 0);
    settings_named_once_are_given(connected.1@, setup, 1);
    settings_named_once_are_given(connected.1@, setup, 2);
    settings_named_once_are_given(connected.1@, setup, 3);
    settings_named_once_are_given(connected.1@, setup, 4);
    settings_named_once_are_given(connected.1@, setup, 5);
    settings_named_once_are_given(connected.1@, setup, 6);
}

/// Whether a consumer keeps the message at an offset of a partition of a topic.
pub open spec fn keeps(
    consumer: EventConsumer,
    topic: Seq<char>,
    partition: i32,
    offset: i64,
) -> bool {
    exists|i: int|
        {
            &&& 0 <= i < consumer.unsettled@.len()
            &&& (#[trigger] consumer.unsettled@[i]).topic@ == topic
            &&& consumer.unsettled@[i].partition == partition
            &&& consumer.unsettled@[i].offset == offset
        }
}

/// The places of the kept messages are those where one is kept.
proof fn places_are_kept(consumer: EventConsumer, place: Place)
    ensures
        places(consumer.unsettled@).contains(place) <==> keeps(
            consumer,
            place.topic,
            place.partition,
            place.offset,
        ),
{
    let views = consumer.unsettled@.map_values(|position: Position| position@);
    if views.contains(place) {
        let i = views.index_of(place);
        assert(consumer.unsettled@[i]@ == place);
    }
    if keeps(consumer, place.topic, place.partition, place.offset) {
        let i = choose|i: int|
            {
                &&& 0 <= i < consumer.unsettled@.len()
                &&& (#[trigger] consumer.unsettled@[i]).topic@ == place.topic
                &&& consumer.unsettled@[i].partition == place.partition
                &&& consumer.unsettled@[i].offset == place.offset
            };
        assert(views[i] == place);
    }
}

/// What is asked of the consumer is a step of its run.
pub proof fn calls_are_steps(consumer: &mut EventConsumer, input: Input, command: Option<Command>)
    requires
        call_ensures(EventConsumer::run, (consumer, input), command),
    ensures
        old(consumer).moves(input, *final(consumer), command),
{
}

/// Whatever it is told, a consumer goes on with its configuration.
pub proof fn configurations_stay(
    consumer: &mut EventConsumer,
    input: Input,
    command: Option<Command>,
)
    requires
        call_ensures(EventConsumer::run, (consumer, input), command),
    ensures
        final(consumer).publisher == old(consumer).publisher,
{
}

/// A consumer that is started subscribes to the topic of every kind, under its
/// prefix, and to nothing else.
pub proof fn started_consumers_subscribe(consumer: &mut EventConsumer, command: Option<Command>)
    requires
        call_ensures(EventConsumer::run, (consumer, Input::Started), command),
        old(consumer).phase is Connected,
    ensures
        ({
            let prefix = old(consumer).publisher.config.topic_prefix@;
            &&& command matches Some(Command::Subscribe(topics))
            &&& topics@.len() == 3
            &&& is_topic_of(topics@[0]@, prefix, EventType::Trace)
            &&& is_topic_of(topics@[1]@, prefix, EventType::Error)
            &&& is_topic_of(topics@[2]@, prefix, EventType::Activity)
        }),
        final(consumer).phase is Subscribing,
        final(consumer).unsettled == old(consumer).unsettled,
{
    let prefix = old(consumer).publisher.config.topic_prefix@;
    let topics = command->0->Subscribe_0@;
    assert(texts(topics).len() == topics.len());
    assert(texts(topics)[0] == topics[0]@);
    assert(texts(topics)[1] == topics[1]@);
    assert(texts(topics)[2] == topics[2]@);
    topic_names_are_topics(prefix, EventType::Trace);
    topic_names_are_topics(prefix, EventType::Error);
    topic_names_are_topics(prefix, EventType::Activity);
}

/// A message whose payload is there and is UTF-8, of whatever length, is handed
/// out for decoding, with the text that its bytes are.
pub proof fn messages_with_text_are_decoded(
    consumer: &mut EventConsumer,
    delivery: Delivery,
    bytes: Vec<u8>,
    command: Option<Command>,
)
    requires
        call_ensures(EventConsumer::run, (consumer, Input::Delivered(delivery)), command),
        old(consumer).phase is Polling,
        delivery.payload == Some(bytes),
        valid_utf8(bytes@),
    ensures
        ({
            &&& command matches Some(Command::Decode(text))
            &&& text@ == decode_utf8(bytes@)
            &&& encode_utf8(text@) == bytes@
            &&& final(consumer).phase matches Phase::Decoding(position, held)
            &&& position == delivery.position
            &&& held@ == text@
        }),
        final(consumer).unsettled == old(consumer).unsettled,
{
    decode_utf8_encode_utf8(bytes@);
}

/// A message without a payload, or whose payload is not UTF-8, is dead-lettered
/// unread, with that for a reason and without a text. No other message is.
pub proof fn messages_without_text_are_dead_lettered(
    consumer: &mut EventConsumer,
    delivery: Delivery,
    command: Option<Command>,
)
    requires
        call_ensures(EventConsumer::run, (consumer, Input::Delivered(delivery)), command),
        old(consumer).phase is Polling,
    ensures
        (delivery.payload is None || !valid_utf8(delivery.payload->0@)) <==> command is Some
            && command->0 is PublishDlq,
        command matches Some(Command::PublishDlq(letter)) ==> {
            &&& is_letter_now(
                letter,
                old(consumer).publisher.config.topic_prefix@,
                "message had no UTF-8 payload"@,
                Seq::empty(),
            )
            &&& final(consumer).phase == Phase::DeadLettering(delivery.position)
        },
        final(consumer).unsettled == old(consumer).unsettled,
{
    if command is Some && command->0 is PublishDlq {
        reports_now_are_letters_now(
            command->0->PublishDlq_0,
            old(consumer).publisher.config.topic_prefix@,
            "message had no UTF-8 payload"@,
            Seq::empty(),
        );
    }
}

/// A text that is no event is dead-lettered, with the error that decoding gave
/// and with the whole text.
pub proof fn texts_that_are_no_events_are_dead_lettered(
    consumer: &mut EventConsumer,
    position: Position,
    text: String,
    reason: String,
    command: Option<Command>,
)
    requires
        call_ensures(EventConsumer::run, (consumer, Input::NotDecoded(reason)), command),
        old(consumer).phase == Phase::Decoding(position, text),
    ensures
        ({
            &&& command matches Some(Command::PublishDlq(letter))
            &&& is_letter_now(
                letter,
                old(consumer).publisher.config.topic_prefix@,
                reason@,
                text@,
            )
        }),
        final(consumer).phase == Phase::DeadLettering(position),
        final(consumer).unsettled == old(consumer).unsettled,
{
    reports_now_are_letters_now(
        command->0->PublishDlq_0,
        old(consumer).publisher.config.topic_prefix@,
        reason@,
        text@,
    );
}

/// A text that is an event is stored as the row of that event.
pub proof fn decoded_events_are_stored(
    consumer: &mut EventConsumer,
    position: Position,
    text: String,
    event: KafkaEvent,
    command: Option<Command>,
    source: Seq<char>,
    name: Seq<char>,
    message: Seq<char>,
    stack: Seq<char>,
)
    requires
        call_ensures(EventConsumer::run, (consumer, Input::Decoded(event)), command),
        old(consumer).phase == Phase::Decoding(position, text),
    ensures
        ({
            &&& command matches Some(Command::Persist(stored))
            &&& is_row_of(stored, event)
            &&& event.event_type is Error && is_member_text(event.payload, "name"@, name)
                && is_member_text(event.payload, "message"@, message) && is_member_text(
                event.payload,
                "stack"@,
                stack,
            ) && names_error(source, name, message, stack) ==> spells_bytes(
                stored.error_fingerprint@,
                sha256(encode_utf8(source)),
            )
        }),
        final(consumer).phase == Phase::Persisting(position),
        final(consumer).unsettled == old(consumer).unsettled,
{
    stored_events_are_rows(command->0->Persist_0, event, source, name, message, stack);
}

/// Once a message has been stored or dead-lettered it is no longer kept, and all
/// others stay kept. It is committed where no other message is kept at a lower
/// offset of its partition; otherwise the next message is asked for.
pub proof fn messages_dealt_with_are_committed_unless_held_back(
    consumer: &mut EventConsumer,
    position: Position,
    command: Option<Command>,
    topic: Seq<char>,
    partition: i32,
    offset: i64,
)
    requires
        call_ensures(EventConsumer::run, (consumer, Input::Finished), command),
        old(consumer).phase == Phase::Persisting(position) || old(consumer).phase
            == Phase::DeadLettering(position),
    ensures
        keeps(*final(consumer), topic, partition, offset) <==> keeps(
            *old(consumer),
            topic,
            partition,
            offset,
        ) && !(topic == position.topic@ && partition == position.partition && offset
            == position.offset),
        ({
            let held = exists|lower: i64|
                lower < position.offset && #[trigger] keeps(
                    *old(consumer),
                    position.topic@,
                    position.partition,
                    lower,
                );
            &&& held ==> command == Some(Command::Poll) && final(consumer).phase is Polling
            &&& !held ==> {
                &&& command matches Some(Command::Commit(committed))
                &&& committed.topic@ == position.topic@
                &&& committed.partition == position.partition
                &&& committed.offset == position.offset
                &&& final(consumer).phase is Committing
            }
        }),
{
    let kept = places(final(consumer).unsettled@);
    let place = Place { topic, partition, offset };
    places_are_kept(*old(consumer), place);
    places_are_kept(*final(consumer), place);
    if holds_back(kept, position@) {
        let other = choose|other: Place| #[trigger]
            kept.contains(other) && other.is_covered_by(position@);
        places_are_kept(*old(consumer), other);
        assert(other.offset != position.offset) by {
            assert(other.offset == position.offset ==> other =~= position@);
        }
        assert(keeps(*old(consumer), position.topic@, position.partition, other.offset));
    }
    assert forall|lower: i64| lower < position.offset && #[trigger] keeps(
        *old(consumer),
        position.topic@,
        position.partition,
        lower,
    ) implies holds_back(kept, position@) by {
        let other = Place { topic: position.topic@, partition: position.partition, offset: lower };
        places_are_kept(*old(consumer), other);
        assert(kept.contains(other) && other.is_covered_by(position@));
    }
}

/// A message whose event could not be stored is kept, as are all that were, and
/// the consumer waits for a second.
pub proof fn messages_that_could_not_be_stored_are_kept(
    consumer: &mut EventConsumer,
    position: Position,
    command: Option<Command>,
    topic: Seq<char>,
    partition: i32,
    offset: i64,
)
    requires
        call_ensures(EventConsumer::run, (consumer, Input::Failed), command),
        old(consumer).phase == Phase::Persisting(position),
    ensures
        keeps(*final(consumer), topic, partition, offset) <==> keeps(
            *old(consumer),
            topic,
            partition,
            offset,
        ) || (topic == position.topic@ && partition == position.partition && offset
            == position.offset),
        command == Some(Command::Pause(1)),
        final(consumer).phase is Pausing,
{
    let place = Place { topic, partition, offset };
    places_are_kept(*old(consumer), place);
    places_are_kept(*final(consumer), place);
}

/// After a subscription, a commit or a pause, and after an error in place of a
/// message, the next message is asked for.
pub proof fn consumers_ask_for_the_next_message(
    consumer: &mut EventConsumer,
    input: Input,
    command: Option<Command>,
)
    requires
        call_ensures(EventConsumer::run, (consumer, input), command),
        input is Finished && (old(consumer).phase is Subscribing || old(consumer).phase is Committing
            || old(consumer).phase is Pausing) || input is StreamFailed && old(consumer).phase
            is Polling,
    ensures
        command == Some(Command::Poll),
        final(consumer).phase is Polling,
        final(consumer).unsettled == old(consumer).unsettled,
{
}

/// A consumer ends with its stream, and ends with an error where a subscription,
/// a dead letter or a commit fails. It ends on nothing else.
pub proof fn consumers_end_with_their_stream_or_on_failure(
    consumer: &mut EventConsumer,
    input: Input,
    command: Option<Command>,
)
    requires
        call_ensures(EventConsumer::run, (consumer, input), command),
    ensures
        command == Some(Command::Stop) <==> input is StreamEnded && old(consumer).phase is Polling,
        command == Some(Command::Abort) <==> input is Failed && (old(consumer).phase is Subscribing
            || old(consumer).phase is DeadLettering || old(consumer).phase is Committing),
        command == Some(Command::Stop) || command == Some(Command::Abort) ==> final(consumer).phase
            is Stopped && final(consumer).unsettled == old(consumer).unsettled,
{
}

/// A consumer answers what it waits for, and nothing else. What it does not wait
/// for changes nothing.
pub proof fn consumers_answer_what_they_wait_for(
    consumer: &mut EventConsumer,
    input: Input,
    command: Option<Command>,
)
    requires
        call_ensures(EventConsumer::run, (consumer, input), command),
    ensures
        command is Some <==> match old(consumer).phase {
            Phase::Connected => input is Started,
            Phase::Subscribing => input is Finished || input is Failed,
            Phase::Polling => input is Delivered || input is StreamFailed || input is StreamEnded,
            Phase::Decoding(_, _) => input is Decoded || input is NotDecoded,
            Phase::DeadLettering(_) => input is Finished || input is Failed,
            Phase::Persisting(_) => input is Finished || input is Failed,
            Phase::Committing => input is Finished || input is Failed,
            Phase::Pausing => input is Finished,
            Phase::Stopped => false,
        },
        command is None ==> *final(consumer) == *old(consumer),
{
}

} // verus!
