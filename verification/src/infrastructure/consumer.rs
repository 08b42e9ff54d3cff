//! The consumer as a state machine.
//!
//! The program around the machine carries out one command at a time and
//! answers it with one input. The machine decides what a message that Kafka
//! delivers becomes, when its offset may be committed, and when to stop.
//!
//! To commit the offset of a message is to commit every lower offset of its
//! partition too. So the machine keeps the messages that could not be stored,
//! and until they have been delivered again and dealt with, it commits no higher
//! offset in their partitions. Lower offsets and other partitions go on. A
//! message that is not delivered to this consumer again holds what is above it
//! back until the consumer is started anew.

use vstd::prelude::*;
use vstd::utf8::{decode_utf8, encode_utf8_decode_utf8, encode_utf8_valid_utf8, valid_utf8};

use crate::config::{consumed_topics, dlq_topic_name, texts, Config};
use crate::domain::event::KafkaEvent;
use crate::infrastructure::clickhouse::StoredEvent;
use crate::outside::text_from_utf8;
use crate::transport::kafka::{
    add_setting, sets, sets_a_key_named_once, setting_pairs, DeadLetter, EventPublisher, Setting,
};

verus! {

/// Where a message stands in Kafka: its topic, its partition there, and its
/// offset in the partition.
#[derive(Debug)]
pub struct Position {
    pub topic: String,
    pub partition: i32,
    pub offset: i64,
}

/// What a position is, as a value.
#[verifier::ext_equal]
pub struct Place {
    pub topic: Seq<char>,
    pub partition: i32,
    pub offset: i64,
}

impl Place {
    /// Whether two places are in one partition.
    pub open spec fn shares_partition(self, other: Place) -> bool {
        self.topic == other.topic && self.partition == other.partition
    }

    /// Whether to commit the offset of another place is to commit this one too.
    pub open spec fn is_covered_by(self, other: Place) -> bool {
        self.shares_partition(other) && self.offset <= other.offset
    }
}

impl View for Position {
    type V = Place;

    open spec fn view(&self) -> Place {
        Place { topic: self.topic@, partition: self.partition, offset: self.offset }
    }
}

impl Clone for Position {
    fn clone(&self) -> (copy: Self)
        ensures
            copy == *self,
    {
        Position { topic: self.topic.clone(), partition: self.partition, offset: self.offset }
    }
}

impl Position {
    /// Whether to commit the offset of another position is to commit this one
    /// too.
    fn is_covered_by(&self, other: &Position) -> (covered: bool)
        ensures
            covered == self@.is_covered_by(other@),
    {
        self.partition == other.partition && self.offset <= other.offset && self.topic
            == other.topic
    }

    /// Whether two positions are one.
    fn is_same(&self, other: &Position) -> (same: bool)
        ensures
            same == (self@ == other@),
    {
        let same = self.offset == other.offset && self.is_covered_by(other);
        assert(same ==> self@ =~= other@);
        same
    }
}

/// The places of a list of positions.
pub open spec fn places(positions: Seq<Position>) -> Set<Place> {
    Set::new(|place: Place| positions.map_values(|position: Position| position@).contains(place))
}

/// Whether a commit at a place would cover one of the places that are kept.
pub open spec fn holds_back(kept: Set<Place>, place: Place) -> bool {
    exists|other: Place| #[trigger] kept.contains(other) && other.is_covered_by(place)
}

/// The places of a longer list.
proof fn places_of_push(positions: Seq<Position>, position: Position)
    ensures
        places(positions.push(position)) =~= places(positions).insert(position@),
{
    let views = positions.map_values(|position: Position| position@);
    let longer = positions.push(position).map_values(|position: Position| position@);
    assert(longer =~= views.push(position@));
    assert forall|place: Place| longer.contains(place) <==> views.contains(place) || place
        == position@ by {
        if views.contains(place) {
            let i = views.index_of(place);
            assert(longer[i] == place);
        }
        if place == position@ {
            assert(longer[views.len() as int] == place);
        }
    }
}

/// A message that Kafka delivers: where it stands, and its payload, if it has
/// one.
#[derive(Debug)]
pub struct Delivery {
    pub position: Position,
    pub payload: Option<Vec<u8>>,
}

/// What the program tells the machine: the outcome of its last command.
#[derive(Debug)]
pub enum Input {
    /// The client is there and the consumer may begin.
    Started,
    /// The stream gave an error in place of a message.
    StreamFailed,
    /// The stream has ended.
    StreamEnded,
    /// The stream gave this message.
    Delivered(Delivery),
    /// The text is this event.
    Decoded(KafkaEvent),
    /// The text is no event, and this is why.
    NotDecoded(String),
    /// The command has been carried out.
    Finished,
    /// The command could not be carried out.
    Failed,
}

/// What the machine asks of the program.
#[derive(Debug)]
pub enum Command {
    /// Subscribe to these topics.
    Subscribe(Vec<String>),
    /// Wait for the next message.
    Poll,
    /// Decode this text as an event.
    Decode(String),
    /// Send this dead letter.
    PublishDlq(DeadLetter),
    /// Write this row to the event store.
    Persist(StoredEvent),
    /// Commit the offset of the message that was delivered last, which stands
    /// here.
    Commit(Position),
    /// Wait for this many seconds.
    Pause(u64),
    /// End the consumer.
    Stop,
    /// End the consumer with the error of the last command.
    Abort,
}

/// Where the machine stands: what it has asked for and not yet heard of, and
/// the position of the message that it works on.
#[derive(Debug)]
pub enum Phase {
    /// Nothing has been asked for yet.
    Connected,
    Subscribing,
    Polling,
    /// The text that is being decoded, after the position.
    Decoding(Position, String),
    DeadLettering(Position),
    Persisting(Position),
    Committing,
    Pausing,
    Stopped,
}

impl Phase {
    /// The place of the message that is being worked on, if there is one.
    pub open spec fn work(self) -> Option<Place> {
        match self {
            Phase::Decoding(position, _) => Some(position@),
            Phase::DeadLettering(position) => Some(position@),
            Phase::Persisting(position) => Some(position@),
            _ => None,
        }
    }
}

/// How long the consumer waits after an event could not be stored.
pub const RETRY_PAUSE_SECS: u64 = 1;

/// The reason that the dead letter of a message without readable text gives.
pub open spec fn unreadable_reason() -> Seq<char> {
    "message had no UTF-8 payload"@
}

/// Whether a payload is text.
pub open spec fn is_readable(payload: Option<Vec<u8>>) -> bool {
    payload is Some && valid_utf8(payload->0@)
}

/// How the consumer is set up.
pub open spec fn consumer_setup(brokers: Seq<char>, group: Seq<char>) -> Seq<
    (Seq<char>, Seq<char>),
> {
    seq![
        ("bootstrap.servers"@, brokers),
        ("group.id"@, group),
        ("enable.auto.commit"@, "false"@),
        ("enable.auto.offset.store"@, "false"@),
        ("auto.offset.reset"@, "earliest"@),
        ("session.timeout.ms"@, "45000"@),
        ("max.poll.interval.ms"@, "300000"@),
    ]
}

/// The consumer: where it sends dead letters, where it stands, and the messages
/// that it could not have stored and has not dealt with since.
#[derive(Debug)]
pub struct EventConsumer {
    pub publisher: EventPublisher,
    pub phase: Phase,
    pub unsettled: Vec<Position>,
}

impl EventConsumer {
    /// The topic prefix under which the consumer works.
    pub open spec fn prefix(self) -> Seq<char> {
        self.publisher.config.topic_prefix@
    }

    /// Whether the machine goes on to a phase with a command, and keeps the same
    /// messages.
    pub open spec fn goes(
        self,
        after: EventConsumer,
        phase: Phase,
        given: Option<Command>,
        command: Command,
    ) -> bool {
        after.phase == phase && after.unsettled == self.unsettled && given == Some(command)
    }

    /// Whether the machine, having dealt with a message, takes it off those that
    /// were not dealt with, and commits it unless that would cover one of those
    /// that are left.
    pub open spec fn settles(
        self,
        position: Position,
        after: EventConsumer,
        command: Option<Command>,
    ) -> bool {
        &&& places(after.unsettled@) == places(self.unsettled@).remove(position@)
        &&& if holds_back(places(after.unsettled@), position@) {
            after.phase == Phase::Polling && command == Some(Command::Poll)
        } else {
            &&& after.phase == Phase::Committing
            &&& command matches Some(Command::Commit(committed))
            &&& committed@ == position@
        }
    }

    /// Whether the machine, given an input here, moves on to a state with a
    /// command. It answers nothing and stays where it is on an input that it
    /// is not waiting for.
    pub open spec fn moves(
        self,
        input: Input,
        after: EventConsumer,
        command: Option<Command>,
    ) -> bool {
        &&& after.publisher == self.publisher
        &&& match (self.phase, input) {
            (Phase::Connected, Input::Started) => {
                &&& after.phase == Phase::Subscribing
                &&& after.unsettled == self.unsettled
                &&& command matches Some(Command::Subscribe(topics))
                &&& texts(topics@) == consumed_topics(self.prefix())
            },
            (Phase::Subscribing, Input::Finished) => self.goes(
                after,
                Phase::Polling,
                command,
                Command::Poll,
            ),
            (Phase::Subscribing, Input::Failed) => self.goes(
                after,
                Phase::Stopped,
                command,
                Command::Abort,
            ),
            (Phase::Polling, Input::StreamFailed) => self.goes(
                after,
                Phase::Polling,
                command,
                Command::Poll,
            ),
            (Phase::Polling, Input::StreamEnded) => self.goes(
                after,
                Phase::Stopped,
                command,
                Command::Stop,
            ),
            (Phase::Polling, Input::Delivered(delivery)) => {
                &&& after.unsettled == self.unsettled
                &&& if is_readable(delivery.payload) {
                    &&& after.phase matches Phase::Decoding(position, held)
                    &&& command matches Some(Command::Decode(text))
                    &&& position == delivery.position
                    &&& held@ == decode_utf8(delivery.payload->0@)
                    &&& text@ == held@
                } else {
                    &&& after.phase == Phase::DeadLettering(delivery.position)
                    &&& command matches Some(Command::PublishDlq(letter))
                    &&& letter.reports_now(self.prefix(), unreadable_reason(), Seq::empty())
                }
            },
            (Phase::Decoding(position, text), Input::NotDecoded(reason)) => {
                &&& after.phase == Phase::DeadLettering(position)
                &&& after.unsettled == self.unsettled
                &&& command matches Some(Command::PublishDlq(letter))
                &&& letter.reports_now(self.prefix(), reason@, text@)
            },
            (Phase::Decoding(position, _), Input::Decoded(event)) => {
                &&& after.phase == Phase::Persisting(position)
                &&& after.unsettled == self.unsettled
                &&& command matches Some(Command::Persist(stored))
                &&& stored.stores(event)
            },
            (Phase::DeadLettering(position), Input::Finished) => self.settles(
                position,
                after,
                command,
            ),
            (Phase::DeadLettering(_), Input::Failed) => self.goes(
                after,
                Phase::Stopped,
                command,
                Command::Abort,
            ),
            (Phase::Persisting(position), Input::Finished) => self.settles(
                position,
                after,
                command,
            ),
            (Phase::Persisting(position), Input::Failed) => {
                &&& after.phase == Phase::Pausing
                &&& places(after.unsettled@) == places(self.unsettled@).insert(position@)
                &&& command == Some(Command::Pause(RETRY_PAUSE_SECS))
            },
            (Phase::Committing, Input::Finished) => self.goes(
                after,
                Phase::Polling,
                command,
                Command::Poll,
            ),
            (Phase::Committing, Input::Failed) => self.goes(
                after,
                Phase::Stopped,
                command,
                Command::Abort,
            ),
            (Phase::Pausing, Input::Finished) => self.goes(
                after,
                Phase::Polling,
                command,
                Command::Poll,
            ),
            _ => after.phase == self.phase && after.unsettled == self.unsettled && command is None,
        }
    }

    /// Sets a consumer up, with the settings of its client. Nothing is committed
    /// but what the machine commits.
    pub fn connect(config: Config) -> (connected: (Self, Vec<Setting>))
        ensures
            connected.0.publisher.config == config,
            connected.0.phase == Phase::Connected,
            connected.0.unsettled@.len() == 0,
            setting_pairs(connected.1@) == consumer_setup(
                config.kafka_brokers@,
                config.consumer_group@,
            ),
    {
        let mut settings: Vec<Setting> = Vec::new();
        add_setting(&mut settings, "bootstrap.servers", config.kafka_brokers.as_str());
        add_setting(&mut settings, "group.id", config.consumer_group.as_str());
        add_setting(&mut settings, "enable.auto.commit", "false");
        add_setting(&mut settings, "enable.auto.offset.store", "false");
        add_setting(&mut settings, "auto.offset.reset", "earliest");
        add_setting(&mut settings, "session.timeout.ms", "45000");
        add_setting(&mut settings, "max.poll.interval.ms", "300000");
        assert(setting_pairs(settings@) =~= consumer_setup(
            config.kafka_brokers@,
            config.consumer_group@,
        ));
        let publisher = EventPublisher { config };
        (EventConsumer { publisher, phase: Phase::Connected, unsettled: Vec::new() }, settings)
    }

    /// Runs the consumer by one step, from the outcome of a command to the next
    /// command.
    pub fn run(&mut self, input: Input) -> (command: Option<Command>)
        ensures
            old(self).moves(input, *final(self), command),
    {
        match input {
            Input::Started => match self.phase {
                Phase::Connected => {
                    let topics = self.publisher.config.event_topics();
                    self.go(Phase::Subscribing, Command::Subscribe(topics))
                },
                _ => None,
            },
            Input::StreamFailed => match self.phase {
                Phase::Polling => Some(Command::Poll),
                _ => None,
            },
            Input::StreamEnded => match self.phase {
                Phase::Polling => self.go(Phase::Stopped, Command::Stop),
                _ => None,
            },
            Input::Delivered(delivery) => match self.phase {
                Phase::Polling => self.receive(delivery),
                _ => None,
            },
            Input::Decoded(event) => match &self.phase {
                Phase::Decoding(position, _) => {
                    let position = position.clone();
                    match StoredEvent::from_event(&event) {
                        Ok(stored) => self.go(Phase::Persisting(position), Command::Persist(stored)),
                        Err(_) => self.set_aside(position),
                    }
                },
                _ => None,
            },
            Input::NotDecoded(reason) => match &self.phase {
                Phase::Decoding(position, text) => {
                    proof {
                        encode_utf8_valid_utf8(text@);
                        encode_utf8_decode_utf8(text@);
                    }
                    let position = position.clone();
                    let published = self.publisher.publish_dlq(
                        reason.as_str(),
                        text.as_str().as_bytes(),
                    );
                    match published {
                        Ok(letter) => self.go(
                            Phase::DeadLettering(position),
                            Command::PublishDlq(letter),
                        ),
                        Err(_) => self.go(Phase::Stopped, Command::Abort),
                    }
                },
                _ => None,
            },
            Input::Finished => match &self.phase {
                Phase::Subscribing => self.go(Phase::Polling, Command::Poll),
                Phase::DeadLettering(position) => {
                    let position = position.clone();
                    self.settle(position)
                },
                Phase::Persisting(position) => {
                    let position = position.clone();
                    self.settle(position)
                },
                Phase::Committing => self.go(Phase::Polling, Command::Poll),
                Phase::Pausing => self.go(Phase::Polling, Command::Poll),
                _ => None,
            },
            Input::Failed => match &self.phase {
                Phase::Subscribing => self.go(Phase::Stopped, Command::Abort),
                Phase::DeadLettering(_) => self.go(Phase::Stopped, Command::Abort),
                Phase::Persisting(position) => {
                    let position = position.clone();
                    self.set_aside(position)
                },
                Phase::Committing => self.go(Phase::Stopped, Command::Abort),
                _ => None,
            },
        }
    }

    /// Moves to a phase with a command.
    fn go(&mut self, phase: Phase, command: Command) -> (given: Option<Command>)
        ensures
            final(self).publisher == old(self).publisher,
            old(self).goes(*final(self), phase, given, command),
    {
        self.phase = phase;
        Some(command)
    }

    /// Takes in a message.
    fn receive(&mut self, delivery: Delivery) -> (command: Option<Command>)
        requires
            old(self).phase == Phase::Polling,
        ensures
            old(self).moves(Input::Delivered(delivery), *final(self), command),
    {
        if let Some(bytes) = &delivery.payload {
            if let Some(text) = text_from_utf8(bytes.as_slice()) {
                let held = text.to_owned();
                let handed = text.to_owned();
                return self.go(
                    Phase::Decoding(delivery.position, held),
                    Command::Decode(handed),
                );
            }
        }
        let nothing: Vec<u8> = Vec::new();
        match self.publisher.publish_dlq("message had no UTF-8 payload", nothing.as_slice()) {
            Ok(letter) => self.go(
                Phase::DeadLettering(delivery.position),
                Command::PublishDlq(letter),
            ),
            Err(_) => self.go(Phase::Stopped, Command::Abort),
        }
    }

    /// Keeps a message whose event could not be stored, and waits.
    fn set_aside(&mut self, position: Position) -> (command: Option<Command>)
        ensures
            final(self).publisher == old(self).publisher,
            final(self).phase == Phase::Pausing,
            places(final(self).unsettled@) == places(old(self).unsettled@).insert(position@),
            command == Some(Command::Pause(RETRY_PAUSE_SECS)),
    {
        if !self.keeps(&position) {
            proof {
                places_of_push(self.unsettled@, position);
            }
            self.unsettled.push(position);
        }
        assert(places(self.unsettled@) =~= places(old(self).unsettled@).insert(position@));
        self.phase = Phase::Pausing;
        Some(Command::Pause(RETRY_PAUSE_SECS))
    }

    /// Whether a message is among those that were not dealt with.
    fn keeps(&self, position: &Position) -> (kept: bool)
        ensures
            kept == places(self.unsettled@).contains(position@),
    {
        let ghost views = self.unsettled@.map_values(|position: Position| position@);
        for i in 0..self.unsettled.len()
            invariant
                views == self.unsettled@.map_values(|position: Position| position@),
                forall|j: int| 0 <= j < i ==> views[j] != position@,
        {
            if self.unsettled[i].is_same(position) {
                assert(views[i as int] == position@);
                return true;
            }
        }
        false
    }

    /// Lets go of a message that has been dealt with, and commits it where it is
    /// not held back.
    fn settle(&mut self, position: Position) -> (command: Option<Command>)
        ensures
            final(self).publisher == old(self).publisher,
            old(self).settles(position, *final(self), command),
    {
        let mut rest: Vec<Position> = Vec::new();
        let mut held_back = false;
        assert(places(self.unsettled@.take(0)) =~= Set::empty());
        assert(places(rest@) =~= Set::empty());
        for i in 0..self.unsettled.len()
            invariant
                places(rest@) == places(self.unsettled@.take(i as int)).remove(position@),
                held_back == holds_back(places(rest@), position@),
                *self == *old(self),
        {
            let other = &self.unsettled[i];
            let ghost before = rest@;
            proof {
                assert(self.unsettled@.take(i as int + 1) =~= self.unsettled@.take(i as int).push(
                    *other,
                ));
                places_of_push(self.unsettled@.take(i as int), *other);
                places_of_push(before, *other);
            }
            if !other.is_same(&position) {
                if other.is_covered_by(&position) {
                    held_back = true;
                    assert(places(before.push(*other)).contains(other@));
                }
                rest.push(other.clone());
                proof {
                    if holds_back(places(before), position@) {
                        let witness = choose|place: Place| #[trigger]
                            places(before).contains(place) && place.is_covered_by(position@);
                        assert(places(rest@).contains(witness));
                    }
                }
            }
            assert(places(rest@) =~= places(self.unsettled@.take(i as int + 1)).remove(position@));
        }
        assert(self.unsettled@.take(self.unsettled@.len() as int) =~= self.unsettled@);
        self.unsettled = rest;
        if held_back {
            self.phase = Phase::Polling;
            Some(Command::Poll)
        } else {
            self.phase = Phase::Committing;
            Some(Command::Commit(position))
        }
    }
}

/// Kafka commits nothing by itself: not on a timer, and not by marking what was
/// read.
pub proof fn consumer_never_commits_by_itself(brokers: Seq<char>, group: Seq<char>)
    ensures
        sets(consumer_setup(brokers, group), "enable.auto.commit"@, "false"@),
        sets(consumer_setup(brokers, group), "enable.auto.offset.store"@, "false"@),
{
    reveal_strlit("bootstrap.servers");
    reveal_strlit("group.id");
    reveal_strlit("enable.auto.commit");
    reveal_strlit("enable.auto.offset.store");
    reveal_strlit("auto.offset.reset");
    reveal_strlit("session.timeout.ms");
    reveal_strlit("max.poll.interval.ms");
    let setup = consumer_setup(brokers, group);
    assert forall|i: int| 0 <= i < setup.len() && i != 2 implies (#[trigger] setup[i]).0
        != setup[2].0 by {
        if i == 5 {
            assert(setup[i].0[0] == 's' && setup[2].0[0] == 'e');
        } else {
            assert(setup[i].0.len() != setup[2].0.len());
        }
    }
    assert forall|i: int| 0 <= i < setup.len() && i != 3 implies (#[trigger] setup[i]).0
        != setup[3].0 by {
        assert(setup[i].0.len() != setup[3].0.len());
    }
    sets_a_key_named_once(setup, 2);
    sets_a_key_named_once(setup, 3);
}

/// A run of a consumer: where it stood before and after every input, the inputs
/// that it was given and the commands that it answered them with.
pub struct Run {
    pub states: Seq<EventConsumer>,
    pub inputs: Seq<Input>,
    pub commands: Seq<Command>,
}

impl Run {
    /// Whether this is a run: it begins with a consumer that is set up, and
    /// every input is one that the consumer was waiting for.
    pub open spec fn is_run(self) -> bool {
        &&& self.states.len() == self.inputs.len() + 1
        &&& self.commands.len() == self.inputs.len()
        &&& self.states[0].phase == Phase::Connected
        &&& self.states[0].unsettled@.len() == 0
        &&& forall|i: int| 0 <= i < self.inputs.len() ==> #[trigger] self.steps(i)
    }

    /// Whether the consumer makes one step of the run as the run has it.
    pub open spec fn steps(self, i: int) -> bool {
        self.states[i].moves(self.inputs[i], self.states[i + 1], Some(self.commands[i]))
    }

    /// Whether the event of the message at a place was found to be stored here:
    /// the message was delivered, its text was decoded as an event, the row of
    /// the event was written to the store, and the store has confirmed it.
    pub open spec fn stores(self, i: int, place: Place) -> bool {
        &&& i >= 2
        &&& self.inputs[i] is Finished
        &&& self.inputs[i - 2] matches Input::Delivered(delivery)
        &&& delivery.position@ == place
        &&& is_readable(delivery.payload)
        &&& self.commands[i - 2] matches Command::Decode(text)
        &&& text@ == decode_utf8(delivery.payload->0@)
        &&& self.inputs[i - 1] matches Input::Decoded(event)
        &&& self.commands[i - 1] matches Command::Persist(stored)
        &&& stored.stores(event)
    }

    /// Whether the message at a place was found to be dead-lettered here: the
    /// message was delivered, it was no text or its text was no event, a dead
    /// letter that tells why was sent, and the broker has confirmed it.
    pub open spec fn dead_letters(self, i: int, place: Place) -> bool {
        &&& i >= 1
        &&& self.inputs[i] is Finished
        &&& self.commands[i - 1] matches Command::PublishDlq(letter)
        &&& {
            ||| {
                &&& i >= 2
                &&& self.inputs[i - 2] matches Input::Delivered(delivery)
                &&& delivery.position@ == place
                &&& is_readable(delivery.payload)
                &&& self.commands[i - 2] matches Command::Decode(text)
                &&& text@ == decode_utf8(delivery.payload->0@)
                &&& self.inputs[i - 1] matches Input::NotDecoded(reason)
                &&& letter.reports_now(self.states[0].prefix(), reason@, text@)
            }
            ||| {
                &&& self.inputs[i - 1] matches Input::Delivered(delivery)
                &&& delivery.position@ == place
                &&& !is_readable(delivery.payload)
                &&& letter.reports_now(
                    self.states[0].prefix(),
                    unreadable_reason(),
                    Seq::empty(),
                )
            }
        }
    }

    /// Whether the message at a place was dealt with here: its event is stored,
    /// or it is dead-lettered.
    pub open spec fn deals_with(self, i: int, place: Place) -> bool {
        self.stores(i, place) || self.dead_letters(i, place)
    }

    /// Whether the message at a place was dealt with after one step, and not
    /// later than at another.
    pub open spec fn dealt_with_after(self, place: Place, from: int, to: int) -> bool {
        exists|k: int| from < k <= to && #[trigger] self.deals_with(k, place)
    }

    /// Whether the event of the message at a place could not be stored here.
    pub open spec fn fails_to_store(self, i: int, place: Place) -> bool {
        &&& self.states[i].phase matches Phase::Persisting(position)
        &&& position@ == place
        &&& self.inputs[i] is Failed
    }

    /// How many messages were delivered in the first steps.
    pub open spec fn delivered(self, steps: nat) -> nat
        decreases steps,
    {
        if steps == 0 {
            0
        } else {
            self.delivered((steps - 1) as nat) + if self.inputs[steps - 1] is Delivered {
                1nat
            } else {
                0nat
            }
        }
    }

    /// How many messages were committed in the first steps.
    pub open spec fn committed(self, steps: nat) -> nat
        decreases steps,
    {
        if steps == 0 {
            0
        } else {
            self.committed((steps - 1) as nat) + if self.commands[steps - 1] is Commit {
                1nat
            } else {
                0nat
            }
        }
    }

    /// How many messages were set aside in the first steps because they could
    /// not be stored.
    pub open spec fn set_aside(self, steps: nat) -> nat
        decreases steps,
    {
        if steps == 0 {
            0
        } else {
            self.set_aside((steps - 1) as nat) + if self.commands[steps - 1] is Pause {
                1nat
            } else {
                0nat
            }
        }
    }

    /// How many messages were dealt with in the first steps and not committed,
    /// because the commit would have covered one that was not.
    pub open spec fn withheld(self, steps: nat) -> nat
        decreases steps,
    {
        if steps == 0 {
            0
        } else {
            self.withheld((steps - 1) as nat) + if self.states[steps - 1].phase.work() is Some
                && self.inputs[steps - 1] is Finished && self.commands[steps - 1] is Poll {
                1nat
            } else {
                0nat
            }
        }
    }
}

/// The publisher of a consumer never changes.
pub proof fn publisher_stays(run: Run, i: int)
    requires
        run.is_run(),
        0 <= i < run.states.len(),
    ensures
        run.states[i].publisher == run.states[0].publisher,
    decreases i,
{
    if i > 0 {
        publisher_stays(run, i - 1);
        assert(run.steps(i - 1));
    }
}

/// A readable message is handed out for decoding, with its own text and from its
/// own place.
pub proof fn decoding_follows_delivery(run: Run, i: int)
    requires
        run.is_run(),
        0 <= i < run.states.len(),
        run.states[i].phase is Decoding,
    ensures
        i >= 1,
        ({
            let position = run.states[i].phase->Decoding_0;
            let held = run.states[i].phase->Decoding_1;
            &&& run.inputs[i - 1] matches Input::Delivered(delivery)
            &&& delivery.position == position
            &&& is_readable(delivery.payload)
            &&& held@ == decode_utf8(delivery.payload->0@)
            &&& run.commands[i - 1] matches Command::Decode(text)
            &&& text@ == held@
        }),
{
    assert(run.steps(i - 1));
}

/// A message is dealt with exactly where the consumer hears that its row has been
/// written or that its dead letter has been sent.
proof fn dealing_with_a_message_ends_its_work(run: Run, i: int, place: Place)
    requires
        run.is_run(),
        0 <= i < run.inputs.len(),
    ensures
        run.deals_with(i, place) <==> {
            &&& run.states[i].phase is Persisting || run.states[i].phase is DeadLettering
            &&& run.states[i].phase.work() == Some(place)
            &&& run.inputs[i] is Finished
        },
{
    if i >= 1 {
        assert(run.steps(i - 1));
        publisher_stays(run, i - 1);
        if run.states[i - 1].phase is Decoding {
            decoding_follows_delivery(run, i - 1);
        }
    }
    if i >= 2 {
        assert(run.steps(i - 2));
    }
}

/// An offset is committed only right after its own message has been dealt with.
pub proof fn commits_follow_storage_or_dead_letter(run: Run, i: int)
    requires
        run.is_run(),
        0 <= i < run.inputs.len(),
        run.commands[i] is Commit,
    ensures
        run.deals_with(i, run.commands[i]->Commit_0@),
{
    assert(run.steps(i));
    dealing_with_a_message_ends_its_work(run, i, run.commands[i]->Commit_0@);
}

/// A message that was delivered has been dealt with since, is kept among those
/// that could not be stored, or is being worked on, unless the consumer has
/// stopped.
proof fn delivered_messages_are_kept(run: Run, j: int, n: int)
    requires
        run.is_run(),
        0 <= j < n <= run.inputs.len(),
        run.inputs[j] is Delivered,
    ensures
        ({
            let place = run.inputs[j]->Delivered_0.position@;
            ||| run.dealt_with_after(place, j, n - 1)
            ||| places(run.states[n].unsettled@).contains(place)
            ||| run.states[n].phase.work() == Some(place)
            ||| run.states[n].phase is Stopped
        }),
    decreases n,
{
    let place = run.inputs[j]->Delivered_0.position@;
    assert(run.steps(n - 1));
    if j < n - 1 {
        delivered_messages_are_kept(run, j, n - 1);
        dealing_with_a_message_ends_its_work(run, n - 1, place);
        if run.dealt_with_after(place, j, n - 2) {
            let k = choose|k: int| j < k <= n - 2 && #[trigger] run.deals_with(k, place);
            assert(run.deals_with(k, place));
        }
    }
}

/// To commit the offset of a message commits every lower offset of its partition
/// too, and none of those messages is lost by it: every one that was delivered
/// before has been dealt with since.
pub proof fn commits_cover_only_messages_dealt_with(run: Run, i: int, j: int)
    requires
        run.is_run(),
        0 <= j < i < run.inputs.len(),
        run.commands[i] is Commit,
        run.inputs[j] is Delivered,
        run.inputs[j]->Delivered_0.position@.is_covered_by(run.commands[i]->Commit_0@),
    ensures
        run.dealt_with_after(run.inputs[j]->Delivered_0.position@, j, i),
{
    assert(run.steps(i));
    delivered_messages_are_kept(run, j, i + 1);
}

/// A message that could not be stored is kept until it is dealt with.
proof fn unstored_messages_are_kept(run: Run, i: int, place: Place, n: int)
    requires
        run.is_run(),
        0 <= i < n <= run.inputs.len(),
        run.fails_to_store(i, place),
    ensures
        places(run.states[n].unsettled@).contains(place) || run.dealt_with_after(place, i, n - 1),
    decreases n,
{
    assert(run.steps(n - 1));
    if i < n - 1 {
        unstored_messages_are_kept(run, i, place, n - 1);
        dealing_with_a_message_ends_its_work(run, n - 1, place);
        if run.dealt_with_after(place, i, n - 2) {
            let k = choose|k: int| i < k <= n - 2 && #[trigger] run.deals_with(k, place);
            assert(run.deals_with(k, place));
        }
    }
}

/// After an event could not be stored, no commit covers its message until the
/// message has been dealt with.
pub proof fn unstored_events_are_not_committed(run: Run, i: int, place: Place, m: int)
    requires
        run.is_run(),
        0 <= i < m < run.inputs.len(),
        run.fails_to_store(i, place),
        run.commands[m] is Commit,
        place.is_covered_by(run.commands[m]->Commit_0@),
    ensures
        run.dealt_with_after(place, i, m),
{
    assert(run.steps(m));
    unstored_messages_are_kept(run, i, place, m + 1);
}

/// A message that is kept could not be stored, and has not been dealt with since.
/// It failed at the step that is returned.
proof fn kept_messages_could_not_be_stored(run: Run, n: int, place: Place) -> (i: int)
    requires
        run.is_run(),
        0 <= n <= run.inputs.len(),
        places(run.states[n].unsettled@).contains(place),
    ensures
        0 <= i < n,
        run.fails_to_store(i, place),
        !run.dealt_with_after(place, i, n - 1),
    decreases n,
{
    assert(n > 0) by {
        if n == 0 {
            assert(run.states[0].unsettled@.map_values(|position: Position| position@).len() == 0);
        }
    }
    assert(run.steps(n - 1));
    dealing_with_a_message_ends_its_work(run, n - 1, place);
    if run.fails_to_store(n - 1, place) {
        n - 1
    } else {
        let i = kept_messages_could_not_be_stored(run, n - 1, place);
        if run.dealt_with_after(place, i, n - 1) {
            let k = choose|k: int| i < k <= n - 1 && #[trigger] run.deals_with(k, place);
            assert(run.deals_with(k, place));
            assert(k == n - 1);
        }
        i
    }
}

/// A message that has been dealt with is committed at once, as long as every
/// message that the commit covers and that could not be stored before has been
/// dealt with since. What fails holds back no lower offset and no other
/// partition.
pub proof fn messages_dealt_with_are_committed(run: Run, m: int, place: Place)
    requires
        run.is_run(),
        0 <= m < run.inputs.len(),
        run.deals_with(m, place),
        forall|i: int, other: Place|
            0 <= i < m && #[trigger] run.fails_to_store(i, other) && other.is_covered_by(place)
                ==> run.dealt_with_after(other, i, m),
    ensures
        run.commands[m] matches Command::Commit(position) && position@ == place,
{
    assert(run.steps(m));
    dealing_with_a_message_ends_its_work(run, m, place);
    let kept = places(run.states[m + 1].unsettled@);
    if holds_back(kept, place) {
        let other = choose|other: Place| #[trigger]
            kept.contains(other) && other.is_covered_by(place);
        let i = kept_messages_could_not_be_stored(run, m + 1, other);
        assert(run.fails_to_store(i, other));
    }
}

/// Every message that was delivered is accounted for: it has been committed, it
/// was dealt with and held back, it was set aside because it could not be stored,
/// or it is the one being worked on. A consumer that has stopped may have left
/// its last message uncommitted.
pub proof fn every_message_is_accounted_for(run: Run, steps: nat)
    requires
        run.is_run(),
        steps <= run.inputs.len(),
    ensures
        ({
            let ended = run.committed(steps) + run.withheld(steps) + run.set_aside(steps);
            let phase = run.states[steps as int].phase;
            &&& ended <= run.delivered(steps) <= ended + 1
            &&& !(phase is Stopped) ==> run.delivered(steps) == ended + if phase.work() is Some {
                1nat
            } else {
                0nat
            }
        }),
    decreases steps,
{
    if steps > 0 {
        every_message_is_accounted_for(run, (steps - 1) as nat);
        assert(run.steps(steps - 1));
    }
}

/// Where an event could not be stored, the consumer waits and goes on to the next
/// message.
pub proof fn consumer_waits_after_an_unstored_event(run: Run, i: int, place: Place)
    requires
        run.is_run(),
        0 <= i < run.inputs.len(),
        run.fails_to_store(i, place),
    ensures
        run.commands[i] == Command::Pause(RETRY_PAUSE_SECS),
        i + 1 < run.inputs.len() ==> run.commands[i + 1] is Poll,
{
    assert(run.steps(i));
    if i + 1 < run.inputs.len() {
        assert(run.steps(i + 1));
    }
}

/// A message that is no event is sent to the dead-letter topic, with the error
/// that decoding gave and with its own text.
pub proof fn undecodable_messages_are_dead_lettered(run: Run, i: int)
    requires
        run.is_run(),
        0 <= i < run.inputs.len(),
        run.inputs[i] is NotDecoded,
    ensures
        i >= 1,
        run.inputs[i - 1] matches Input::Delivered(delivery) && run.commands[i]
            matches Command::PublishDlq(letter) && letter.topic@ == dlq_topic_name(
            run.states[0].prefix(),
        ) && letter.reports_now(
            run.states[0].prefix(),
            run.inputs[i]->NotDecoded_0@,
            decode_utf8(delivery.payload->0@),
        ),
{
    assert(run.steps(i));
    publisher_stays(run, i);
    decoding_follows_delivery(run, i);
}

/// A message without readable text is sent to the dead-letter topic and never
/// decoded.
pub proof fn unreadable_messages_are_dead_lettered(run: Run, i: int)
    requires
        run.is_run(),
        0 <= i < run.inputs.len(),
        run.inputs[i] is Delivered,
        !is_readable(run.inputs[i]->Delivered_0.payload),
    ensures
        run.commands[i] matches Command::PublishDlq(letter) && letter.topic@ == dlq_topic_name(
            run.states[0].prefix(),
        ) && letter.reports_now(run.states[0].prefix(), unreadable_reason(), Seq::empty()),
{
    assert(run.steps(i));
    publisher_stays(run, i);
}

/// A consumer that has stopped does nothing any more, and it stops on its own
/// only where the stream has ended or where a subscription, a dead letter or a
/// commit has failed.
pub proof fn consumer_stops_only_at_the_end_or_on_failure(run: Run, i: int)
    requires
        run.is_run(),
        0 <= i < run.inputs.len(),
        run.states[i + 1].phase is Stopped,
    ensures
        run.inputs[i] is StreamEnded && run.commands[i] is Stop || run.inputs[i] is Failed
            && run.commands[i] is Abort && !(run.states[i].phase is Persisting),
        i + 1 == run.inputs.len(),
{
    assert(run.steps(i));
    if i + 1 < run.inputs.len() {
        assert(run.steps(i + 1));
    }
}

} // verus!
