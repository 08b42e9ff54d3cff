//! What the settings of the service are.

use vstd::prelude::*;

use crate::config::{
    default_size_limit, dlq_topic_name, required_env, texts, topic_name, topics_are_split_by_kind,
    Config, ConfigError, Environment,
};
use crate::domain::event::EventType;
use crate::laws::text::{writes, writing_is_valuing};
use crate::text::{breaks_off_at, decimal_value, is_digit, unsigned_digits, NumberError};

verus! {

/// A copy of the settings has them all.
pub proof fn settings_are_copied(config: Config, copy: Config)
    requires
        call_ensures(<Config as Clone>::clone, (&config,), copy),
    ensures
        copy == config,
{
}

/// The value of a variable that is set is handed on, whatever it is. Of one that
/// is not set, its name is told.
pub proof fn required_values_are_handed_on(
    name: &str,
    value: Option<String>,
    required: Result<String, String>,
)
    requires
        call_ensures(required_env, (name, value), required),
    ensures
        value is Some ==> required is Ok && required->Ok_0 == value->0,
        value is None ==> required is Err && required->Err_0@ == name@ + " must be configured"@,
{
}

/// A service is configured exactly where the four addresses are set and the size
/// limit, where it is set, is a number in decimal, with or without a plus sign.
pub proof fn services_are_configured(env: Environment, limit: usize, config: Result<
    Config,
    ConfigError,
>)
    requires
        call_ensures(Config::from_env, (env,), config),
        env.listen_addr is Some,
        env.database_url is Some,
        env.clickhouse_url is Some,
        env.kafka_brokers is Some,
        env.max_event_bytes matches Some(text) ==> writes(text@, limit as int) || (text@.len() > 0
            && text@[0] == '+' && writes(text@.skip(1), limit as int)),
        env.max_event_bytes is None ==> limit == 1_048_576,
    ensures
        config is Ok,
        config->Ok_0.max_event_bytes == limit,
{
    if env.max_event_bytes is Some {
        let text = env.max_event_bytes->0@;
        writing_is_valuing(text, limit as int);
        writing_is_valuing(text.skip(1), limit as int);
        if writes(text, limit as int) {
            assert(is_digit(text[0]));
        }
    } else {
        default_size_limit(env);
    }
}

/// The settings of a configured service are the variables as they are set, and
/// the defaults where they are not. The size limit is the number that its text
/// is.
pub proof fn settings_are_the_variables(env: Environment, config: Config)
    requires
        call_ensures(Config::from_env, (env,), Ok(config)),
    ensures
        env.listen_addr matches Some(text) && config.listen_addr@ == text@,
        env.database_url matches Some(text) && config.database_url@ == text@,
        env.clickhouse_url matches Some(text) && config.clickhouse_url@ == text@,
        env.kafka_brokers matches Some(text) && config.kafka_brokers@ == text@,
        env.topic_prefix matches Some(text) ==> config.topic_prefix@ == text@,
        env.topic_prefix is None ==> config.topic_prefix@ == "jsexpert.events"@,
        env.consumer_group matches Some(text) ==> config.consumer_group@ == text@,
        env.consumer_group is None ==> config.consumer_group@ == "jsexpert-stream-v1"@,
        env.max_event_bytes matches Some(text) ==> writes(text@, config.max_event_bytes as int) || (
        text@.len() > 0 && text@[0] == '+' && writes(
            text@.skip(1),
            config.max_event_bytes as int,
        )),
        env.max_event_bytes is None ==> config.max_event_bytes == 1_048_576,
{
    if env.max_event_bytes is Some {
        let text = env.max_event_bytes->0@;
        writing_is_valuing(text, config.max_event_bytes as int);
        writing_is_valuing(text.skip(1), config.max_event_bytes as int);
    } else {
        default_size_limit(env);
    }
}

/// Settings are refused for the first address that is not set, in the order of
/// the listening address, the registry, the store and the brokers, and for the
/// size limit only where all of them are set.
pub proof fn settings_are_refused_for_the_first_fault(env: Environment, error: ConfigError)
    requires
        call_ensures(Config::from_env, (env,), Err(error)),
    ensures
        env.listen_addr is None ==> error is Missing && error->Missing_0@
            == "LISTEN_ADDR must be configured"@,
        env.listen_addr is Some && env.database_url is None ==> error is Missing && error->Missing_0@
            == "DATABASE_URL must be configured"@,
        env.listen_addr is Some && env.database_url is Some && env.clickhouse_url is None
            ==> error is Missing && error->Missing_0@
            == "CLICKHOUSE_URL must be configured"@,
        env.listen_addr is Some && env.database_url is Some && env.clickhouse_url is Some
            && env.kafka_brokers is None ==> error is Missing && error->Missing_0@
            == "KAFKA_BROKERS must be configured"@,
        env.listen_addr is Some && env.database_url is Some && env.clickhouse_url is Some
            && env.kafka_brokers is Some ==> error is InvalidSize && env.max_event_bytes is Some,
{
    reveal_strlit(" must be configured");
    reveal_strlit("LISTEN_ADDR");
    reveal_strlit("DATABASE_URL");
    reveal_strlit("CLICKHOUSE_URL");
    reveal_strlit("KAFKA_BROKERS");
    reveal_strlit("LISTEN_ADDR must be configured");
    reveal_strlit("DATABASE_URL must be configured");
    reveal_strlit("CLICKHOUSE_URL must be configured");
    reveal_strlit("KAFKA_BROKERS must be configured");
    assert("LISTEN_ADDR"@ + " must be configured"@ =~= "LISTEN_ADDR must be configured"@);
    assert("DATABASE_URL"@ + " must be configured"@ =~= "DATABASE_URL must be configured"@);
    assert("CLICKHOUSE_URL"@ + " must be configured"@ =~= "CLICKHOUSE_URL must be configured"@);
    assert("KAFKA_BROKERS"@ + " must be configured"@ =~= "KAFKA_BROKERS must be configured"@);
    if env.max_event_bytes is None {
        default_size_limit(env);
    }
}

/// A size limit is refused as empty where its text is, as too large where it is a
/// number that does not fit, and for a digit where there is none after a plus
/// sign or something else stands after digits that fit.
pub proof fn size_limits_are_refused_for_their_fault(
    env: Environment,
    text: String,
    error: NumberError,
    digits: Seq<char>,
    number: int,
    place: int,
)
    requires
        call_ensures(Config::from_env, (env,), Err(ConfigError::InvalidSize(error))),
        env.max_event_bytes == Some(text),
        text@ == seq!['+'] + digits || text@ == digits && !seq!['+'].is_prefix_of(digits),
    ensures
        text@.len() == 0 ==> error is Empty,
        text@.len() > 0 && digits.len() == 0 ==> error is InvalidDigit,
        writes(digits, number) && number > usize::MAX ==> error is TooLarge,
        0 <= place < digits.len() && !('0' <= digits[place] <= '9') && (place == 0 || writes(
            digits.take(place),
            number,
        ) && number <= usize::MAX) ==> error is InvalidDigit,
{
    assert(unsigned_digits(text@) =~= digits) by {
        if text@.len() > 0 && text@[0] == '+' {
            assert(text@ == digits ==> seq!['+'] =~= digits.take(1));
        }
    }
    writing_is_valuing(digits, number);
    if writes(digits, number) {
        assert forall|i: int| !breaks_off_at(digits, i) by {
            if 0 <= i < digits.len() {
                assert(is_digit(digits[i]));
            }
        }
    }
    if 0 <= place < digits.len() && !('0' <= digits[place] <= '9') && (place == 0 || writes(
        digits.take(place),
        number,
    ) && number <= usize::MAX) {
        writing_is_valuing(digits.take(place), number);
        if place == 0 {
            assert(digits.take(0) =~= Seq::empty());
            assert(decimal_value(Seq::<char>::empty()) == 0);
        }
        assert(breaks_off_at(digits, place));
    }
}

/// What is said of settings that cannot be used is what was found.
pub proof fn faults_of_settings_are_told(error: ConfigError, text: String)
    requires
        call_ensures(ConfigError::to_string, (&error,), text),
    ensures
        error matches ConfigError::Missing(message) ==> text@ == message@,
        error matches ConfigError::InvalidSize(NumberError::Empty) ==> text@
            == "cannot parse integer from empty string"@,
        error matches ConfigError::InvalidSize(NumberError::InvalidDigit) ==> text@
            == "invalid digit found in string"@,
        error matches ConfigError::InvalidSize(NumberError::TooLarge) ==> text@
            == "number too large to fit in target type"@,
        error matches ConfigError::InvalidSize(NumberError::Other) ==> text@ == "invalid number"@,
{
}

/// Whether a text is a kind of event in a word.
pub open spec fn is_word_of(word: Seq<char>, event_type: EventType) -> bool {
    match event_type {
        EventType::Trace => word == seq!['t', 'r', 'a', 'c', 'e'],
        EventType::Error => word == seq!['e', 'r', 'r', 'o', 'r'],
        EventType::Activity => word == seq!['a', 'c', 't', 'i', 'v', 'i', 't', 'y'],
    }
}

/// The name of a kind is its word.
pub(crate) proof fn names_are_words(event_type: EventType)
    ensures
        is_word_of(event_type.name(), event_type),
{
    reveal_strlit("trace");
    reveal_strlit("error");
    reveal_strlit("activity");
    assert("trace"@ =~= seq!['t', 'r', 'a', 'c', 'e']);
    assert("error"@ =~= seq!['e', 'r', 'r', 'o', 'r']);
    assert("activity"@ =~= seq!['a', 'c', 't', 'i', 'v', 'i', 't', 'y']);
}

/// Whether a topic is that of a kind of event under a prefix: it begins with the
/// whole prefix, goes on with a dot and ends with the word of the kind.
pub open spec fn is_topic_of(topic: Seq<char>, prefix: Seq<char>, event_type: EventType) -> bool {
    &&& prefix.is_prefix_of(topic)
    &&& topic.len() > prefix.len()
    &&& topic[prefix.len() as int] == '.'
    &&& is_word_of(topic.skip(prefix.len() as int + 1), event_type)
}

/// Whether a topic is the dead-letter topic under a prefix: it begins with the
/// whole prefix and ends with four characters more.
pub open spec fn is_dead_letter_topic_of(topic: Seq<char>, prefix: Seq<char>) -> bool {
    &&& prefix.is_prefix_of(topic)
    &&& topic.skip(prefix.len() as int) == seq!['.', 'd', 'l', 'q']
}

/// The topic of a kind is made of the prefix and the word of the kind.
pub(crate) proof fn topic_names_are_topics(prefix: Seq<char>, event_type: EventType)
    ensures
        is_topic_of(topic_name(prefix, event_type), prefix, event_type),
{
    reveal_strlit(".");
    names_are_words(event_type);
    let topic = topic_name(prefix, event_type);
    assert(topic.skip(prefix.len() as int + 1) =~= event_type.name());
}

/// The dead-letter topic is made of the prefix and four characters.
pub(crate) proof fn dlq_topic_names_are_dead_letter_topics(prefix: Seq<char>)
    ensures
        is_dead_letter_topic_of(dlq_topic_name(prefix), prefix),
{
    reveal_strlit(".dlq");
    let topic = dlq_topic_name(prefix);
    assert(topic.skip(prefix.len() as int) =~= seq!['.', 'd', 'l', 'q']);
}

/// The topic of a kind begins with the configured prefix, and the word of the
/// kind follows after a dot.
pub proof fn topics_follow_the_prefix(config: Config, event_type: EventType, topic: String)
    requires
        call_ensures(Config::topic, (&config, event_type), topic),
    ensures
        is_topic_of(topic@, config.topic_prefix@, event_type),
{
    topic_names_are_topics(config.topic_prefix@, event_type);
}

/// Under different prefixes, and for different kinds under one prefix, the topics
/// differ.
pub proof fn topics_differ(
    a: Config,
    kind_a: EventType,
    topic_a: String,
    b: Config,
    kind_b: EventType,
    topic_b: String,
)
    requires
        call_ensures(Config::topic, (&a, kind_a), topic_a),
        call_ensures(Config::topic, (&b, kind_b), topic_b),
    ensures
        a.topic_prefix@ == b.topic_prefix@ ==> (topic_a@ == topic_b@ <==> kind_a == kind_b),
        kind_a == kind_b ==> (topic_a@ == topic_b@ <==> a.topic_prefix@ == b.topic_prefix@),
{
    topics_are_split_by_kind(a.topic_prefix@, kind_a, kind_b);
    if kind_a == kind_b && topic_a@ == topic_b@ {
        reveal_strlit(".");
        let word = kind_a.name().len();
        assert(topic_a@.len() == a.topic_prefix@.len() + 1 + word);
        assert(topic_b@.len() == b.topic_prefix@.len() + 1 + word);
        assert(a.topic_prefix@ =~= topic_a@.take(a.topic_prefix@.len() as int));
        assert(b.topic_prefix@ =~= topic_b@.take(b.topic_prefix@.len() as int));
    }
}

/// The dead-letter topic begins with the configured prefix and is longer by four
/// characters, which are always the same.
pub proof fn dead_letter_topics_follow_the_prefix(config: Config, topic: String)
    requires
        call_ensures(Config::dlq_topic, (&config,), topic),
    ensures
        is_dead_letter_topic_of(topic@, config.topic_prefix@),
        topic@.len() == config.topic_prefix@.len() + 4,
{
    dlq_topic_names_are_dead_letter_topics(config.topic_prefix@);
    assert(topic@.skip(config.topic_prefix@.len() as int).len() == 4);
}

/// Different prefixes have different dead-letter topics.
pub proof fn dead_letter_topics_differ(a: Config, topic_a: String, b: Config, topic_b: String)
    requires
        call_ensures(Config::dlq_topic, (&a,), topic_a),
        call_ensures(Config::dlq_topic, (&b,), topic_b),
    ensures
        topic_a@ == topic_b@ <==> a.topic_prefix@ == b.topic_prefix@,
{
    dead_letter_topics_follow_the_prefix(a, topic_a);
    dead_letter_topics_follow_the_prefix(b, topic_b);
    if topic_a@ == topic_b@ {
        assert(a.topic_prefix@ =~= topic_a@.take(a.topic_prefix@.len() as int));
        assert(b.topic_prefix@ =~= topic_b@.take(b.topic_prefix@.len() as int));
    }
    if a.topic_prefix@ == b.topic_prefix@ {
        let prefix = a.topic_prefix@;
        assert(topic_a@ =~= prefix + topic_a@.skip(prefix.len() as int));
        assert(topic_b@ =~= prefix + topic_b@.skip(prefix.len() as int));
    }
}

/// A consumer reads the topic of every kind, each once, and nothing else.
pub proof fn consumers_read_the_topics_of_all_kinds(config: Config, topics: Vec<String>)
    requires
        call_ensures(Config::event_topics, (&config,), topics),
    ensures
        topics@.len() == 3,
        is_topic_of(topics@[0]@, config.topic_prefix@, EventType::Trace),
        is_topic_of(topics@[1]@, config.topic_prefix@, EventType::Error),
        is_topic_of(topics@[2]@, config.topic_prefix@, EventType::Activity),
{
    let names = texts(topics@);
    assert(names.len() == 3);
    assert(names[0] == topics@[0]@ && names[1] == topics@[1]@ && names[2] == topics@[2]@);
    topic_names_are_topics(config.topic_prefix@, EventType::Trace);
    topic_names_are_topics(config.topic_prefix@, EventType::Error);
    topic_names_are_topics(config.topic_prefix@, EventType::Activity);
}

} // verus!
