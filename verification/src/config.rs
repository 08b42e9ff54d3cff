//! The settings of the service and the topics that follow from them.

use vstd::prelude::*;

use crate::domain::event::{event_type_names_are_distinct, EventType};
use crate::outside::parse_usize;
use crate::text::{
    decimal_usize, decimal_value, is_digit, number_error, unsigned_digits, NumberError,
};

verus! {

/// The environment variables that configure the service, each as far as it is
/// set to readable text.
#[derive(Debug)]
pub struct Environment {
    /// `LISTEN_ADDR`
    pub listen_addr: Option<String>,
    /// `DATABASE_URL`
    pub database_url: Option<String>,
    /// `CLICKHOUSE_URL`
    pub clickhouse_url: Option<String>,
    /// `KAFKA_BROKERS`
    pub kafka_brokers: Option<String>,
    /// `KAFKA_TOPIC_PREFIX`
    pub topic_prefix: Option<String>,
    /// `KAFKA_CONSUMER_GROUP`
    pub consumer_group: Option<String>,
    /// `MAX_EVENT_BYTES`
    pub max_event_bytes: Option<String>,
}

impl Environment {
    /// The first variable that has no default and is not set.
    pub open spec fn first_missing(self) -> Option<Seq<char>> {
        if self.listen_addr is None {
            Some("LISTEN_ADDR"@)
        } else if self.database_url is None {
            Some("DATABASE_URL"@)
        } else if self.clickhouse_url is None {
            Some("CLICKHOUSE_URL"@)
        } else if self.kafka_brokers is None {
            Some("KAFKA_BROKERS"@)
        } else {
            None
        }
    }

    /// The text of the size limit.
    pub open spec fn size_text(self) -> Seq<char> {
        text_or(self.max_event_bytes, "1048576"@)
    }

    /// The size limit that the variables give.
    pub open spec fn size_limit(self) -> Option<usize> {
        decimal_usize(self.size_text())
    }
}

/// An optional text, or a default where it is not there.
pub open spec fn text_or(value: Option<String>, default: Seq<char>) -> Seq<char> {
    match value {
        Some(text) => text@,
        None => default,
    }
}

/// Why the service cannot be configured.
#[derive(Debug)]
pub enum ConfigError {
    /// A variable without a default is not set, and this is what is said of it.
    Missing(String),
    /// The size limit is not a number that fits, and this is why.
    InvalidSize(NumberError),
}

impl ConfigError {
    /// What is said of settings that cannot be used.
    pub open spec fn message(self) -> Seq<char> {
        match self {
            ConfigError::Missing(message) => message@,
            ConfigError::InvalidSize(error) => error.message(),
        }
    }

    /// Writes what is said of settings that cannot be used.
    pub fn to_string(&self) -> (text: String)
        ensures
            text@ == self.message(),
    {
        match self {
            ConfigError::Missing(message) => message.clone(),
            ConfigError::InvalidSize(error) => error.to_string(),
        }
    }
}

/// What is said of a variable that must be set and is not.
pub open spec fn missing_error(name: Seq<char>) -> Seq<char> {
    name + " must be configured"@
}

/// Takes the value of a variable that must be set.
pub fn required_env(name: &str, value: Option<String>) -> (required: Result<String, String>)
    ensures
        match required {
            Ok(text) => value == Some(text),
            Err(message) => value is None && message@ == missing_error(name@),
        },
{
    match value {
        Some(text) => Ok(text),
        None => {
            let mut message = name.to_owned();
            message.append(" must be configured");
            Err(message)
        },
    }
}

/// Takes the value of a variable, or its default where it is not set.
fn env_or(value: Option<String>, default: &str) -> (text: String)
    ensures
        text@ == text_or(value, default@),
{
    match value {
        Some(text) => text,
        None => default.to_owned(),
    }
}

/// The settings of the service.
#[derive(Debug)]
pub struct Config {
    pub listen_addr: String,
    pub database_url: String,
    pub clickhouse_url: String,
    pub kafka_brokers: String,
    pub topic_prefix: String,
    pub consumer_group: String,
    pub max_event_bytes: usize,
}

impl Clone for Config {
    fn clone(&self) -> (copy: Self)
        ensures
            copy == *self,
    {
        Config {
            listen_addr: self.listen_addr.clone(),
            database_url: self.database_url.clone(),
            clickhouse_url: self.clickhouse_url.clone(),
            kafka_brokers: self.kafka_brokers.clone(),
            topic_prefix: self.topic_prefix.clone(),
            consumer_group: self.consumer_group.clone(),
            max_event_bytes: self.max_event_bytes,
        }
    }
}

/// The topic of the events of a kind, under a prefix.
pub open spec fn topic_name(prefix: Seq<char>, event_type: EventType) -> Seq<char> {
    prefix + "."@ + event_type.name()
}

/// The topic of the messages that no consumer could decode, under a prefix.
pub open spec fn dlq_topic_name(prefix: Seq<char>) -> Seq<char> {
    prefix + ".dlq"@
}

/// The topics that a consumer reads, under a prefix.
pub open spec fn consumed_topics(prefix: Seq<char>) -> Seq<Seq<char>> {
    seq![
        topic_name(prefix, EventType::Trace),
        topic_name(prefix, EventType::Error),
        topic_name(prefix, EventType::Activity),
    ]
}

/// The contents of a list of texts.
pub open spec fn texts(list: Seq<String>) -> Seq<Seq<char>> {
    list.map_values(|text: String| text@)
}

impl Config {
    /// Reads the settings from the environment variables. The first variable
    /// that must be set and is not is what the error tells; the size limit is
    /// read last.
    pub fn from_env(env: Environment) -> (config: Result<Self, ConfigError>)
        ensures
            match config {
                Ok(config) => {
                    &&& env.first_missing() is None
                    &&& env.size_limit() == Some(config.max_event_bytes)
                    &&& env.listen_addr == Some(config.listen_addr)
                    &&& env.database_url == Some(config.database_url)
                    &&& env.clickhouse_url == Some(config.clickhouse_url)
                    &&& env.kafka_brokers == Some(config.kafka_brokers)
                    &&& config.topic_prefix@ == text_or(env.topic_prefix, "jsexpert.events"@)
                    &&& config.consumer_group@ == text_or(
                        env.consumer_group,
                        "jsexpert-stream-v1"@,
                    )
                },
                Err(ConfigError::Missing(message)) => env.first_missing() is Some && message@
                    == missing_error(env.first_missing()->0),
                Err(ConfigError::InvalidSize(error)) => {
                    &&& env.first_missing() is None
                    &&& env.size_limit() is None
                    &&& number_error(env.size_text()) is Some ==> error == number_error(
                        env.size_text(),
                    )->0
                },
            },
    {
        let listen_addr = match required_env("LISTEN_ADDR", env.listen_addr) {
            Ok(text) => text,
            Err(message) => {
                return Err(ConfigError::Missing(message));
            },
        };
        let database_url = match required_env("DATABASE_URL", env.database_url) {
            Ok(text) => text,
            Err(message) => {
                return Err(ConfigError::Missing(message));
            },
        };
        let clickhouse_url = match required_env("CLICKHOUSE_URL", env.clickhouse_url) {
            Ok(text) => text,
            Err(message) => {
                return Err(ConfigError::Missing(message));
            },
        };
        let kafka_brokers = match required_env("KAFKA_BROKERS", env.kafka_brokers) {
            Ok(text) => text,
            Err(message) => {
                return Err(ConfigError::Missing(message));
            },
        };
        let topic_prefix = env_or(env.topic_prefix, "jsexpert.events");
        let consumer_group = env_or(env.consumer_group, "jsexpert-stream-v1");
        let size_text = env_or(env.max_event_bytes, "1048576");
        match parse_usize(size_text.as_str()) {
            Ok(max_event_bytes) => Ok(
                Config {
                    listen_addr,
                    database_url,
                    clickhouse_url,
                    kafka_brokers,
                    topic_prefix,
                    consumer_group,
                    max_event_bytes,
                },
            ),
            Err(error) => Err(ConfigError::InvalidSize(error)),
        }
    }

    /// The topic of the events of a kind.
    pub fn topic(&self, event_type: EventType) -> (topic: String)
        ensures
            topic@ == topic_name(self.topic_prefix@, event_type),
    {
        let mut topic = self.topic_prefix.clone();
        topic.append(".");
        topic.append(event_type.as_str());
        topic
    }

    /// The topic of the messages that no consumer could decode.
    pub fn dlq_topic(&self) -> (topic: String)
        ensures
            topic@ == dlq_topic_name(self.topic_prefix@),
    {
        let mut topic = self.topic_prefix.clone();
        topic.append(".dlq");
        topic
    }

    /// The topics that a consumer reads: those of traces, errors and
    /// activities.
    pub fn event_topics(&self) -> (topics: Vec<String>)
        ensures
            texts(topics@) == consumed_topics(self.topic_prefix@),
    {
        let mut topics: Vec<String> = Vec::new();
        topics.push(self.topic(EventType::Trace));
        topics.push(self.topic(EventType::Error));
        topics.push(self.topic(EventType::Activity));
        assert(texts(topics@) =~= consumed_topics(self.topic_prefix@));
        topics
    }
}

/// The size limit is one mebibyte where none is set.
pub proof fn default_size_limit(env: Environment)
    requires
        env.max_event_bytes is None,
    ensures
        env.size_limit() == Some(1048576usize),
{
    reveal_strlit("1048576");
    let text = "1048576"@;
    reveal_with_fuel(decimal_value, 8);
    assert(unsigned_digits(text) == text);
    assert(text.drop_last() =~= seq!['1', '0', '4', '8', '5', '7']);
    assert(text.drop_last().drop_last() =~= seq!['1', '0', '4', '8', '5']);
    assert(seq!['1', '0', '4', '8', '5'].drop_last() =~= seq!['1', '0', '4', '8']);
    assert(seq!['1', '0', '4', '8'].drop_last() =~= seq!['1', '0', '4']);
    assert(seq!['1', '0', '4'].drop_last() =~= seq!['1', '0']);
    assert(seq!['1', '0'].drop_last() =~= seq!['1']);
    assert(decimal_value(text) == 1048576);
    assert forall|i: int| 0 <= i < text.len() implies is_digit(#[trigger] text[i]) by {}
}

/// Every kind of event has a topic of its own, and the dead-letter topic is
/// none of them.
pub proof fn topics_are_split_by_kind(prefix: Seq<char>, a: EventType, b: EventType)
    ensures
        topic_name(prefix, a) == topic_name(prefix, b) <==> a == b,
        topic_name(prefix, a) != dlq_topic_name(prefix),
{
    reveal_strlit(".");
    reveal_strlit(".dlq");
    reveal_strlit("trace");
    reveal_strlit("error");
    reveal_strlit("activity");
    event_type_names_are_distinct(a, b);
    let start = prefix.len() as int + 1;
    assert(topic_name(prefix, a).skip(start) =~= a.name());
    assert(topic_name(prefix, b).skip(start) =~= b.name());
    assert(topic_name(prefix, a)[start] == a.name()[0]);
    assert(dlq_topic_name(prefix)[start] == 'd');
}

/// A consumer reads the topic of every kind and never the dead-letter topic.
pub proof fn consumers_read_every_kind_and_no_dead_letters(prefix: Seq<char>)
    ensures
        forall|kind: EventType| consumed_topics(prefix).contains(#[trigger] topic_name(prefix, kind)),
        !consumed_topics(prefix).contains(dlq_topic_name(prefix)),
{
    let topics = consumed_topics(prefix);
    assert forall|kind: EventType| topics.contains(#[trigger] topic_name(prefix, kind)) by {
        let place: int = match kind {
            EventType::Trace => 0,
            EventType::Error => 1,
            EventType::Activity => 2,
        };
        assert(topics[place] == topic_name(prefix, kind));
    }
    topics_are_split_by_kind(prefix, EventType::Trace, EventType::Trace);
    topics_are_split_by_kind(prefix, EventType::Error, EventType::Error);
    topics_are_split_by_kind(prefix, EventType::Activity, EventType::Activity);
}

} // verus!
