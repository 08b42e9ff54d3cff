use jsexpert_stream::config::{required_env, Config, ConfigError, Environment};
use jsexpert_stream::domain::event::EventType;
use jsexpert_stream::text::NumberError;

fn environment() -> Environment {
    Environment {
        listen_addr: Some("0.0.0.0:4002".into()),
        database_url: Some("postgres://db".into()),
        clickhouse_url: Some("http://store".into()),
        kafka_brokers: Some("kafka:9092".into()),
        topic_prefix: None,
        consumer_group: None,
        max_event_bytes: None,
    }
}

fn limit(text: &str) -> Option<usize> {
    let mut env = environment();
    env.max_event_bytes = Some(text.into());
    match Config::from_env(env) {
        Ok(config) => Some(config.max_event_bytes),
        Err(ConfigError::InvalidSize(_)) => None,
        Err(ConfigError::Missing(message)) => panic!("{message}"),
    }
}

fn refusal(text: &str) -> (NumberError, String) {
    let mut env = environment();
    env.max_event_bytes = Some(text.into());
    match Config::from_env(env) {
        Err(error) => {
            let message = error.to_string();
            match error {
                ConfigError::InvalidSize(error) => (error, message),
                ConfigError::Missing(message) => panic!("{message}"),
            }
        }
        Ok(config) => panic!("{config:?}"),
    }
}

fn missing(env: Environment) -> String {
    match Config::from_env(env) {
        Err(ConfigError::Missing(message)) => message,
        other => panic!("{other:?}"),
    }
}

#[test]
fn defaults_fill_what_is_not_set() {
    let config = Config::from_env(environment()).unwrap();
    assert_eq!(config.listen_addr, "0.0.0.0:4002");
    assert_eq!(config.database_url, "postgres://db");
    assert_eq!(config.clickhouse_url, "http://store");
    assert_eq!(config.kafka_brokers, "kafka:9092");
    assert_eq!(config.topic_prefix, "jsexpert.events");
    assert_eq!(config.consumer_group, "jsexpert-stream-v1");
    assert_eq!(config.max_event_bytes, 1_048_576);
}

#[test]
fn what_is_set_is_used() {
    let mut env = environment();
    env.topic_prefix = Some("custom".into());
    env.consumer_group = Some("group-7".into());
    env.max_event_bytes = Some("2048".into());
    let config = Config::from_env(env).unwrap();
    assert_eq!(config.topic_prefix, "custom");
    assert_eq!(config.consumer_group, "group-7");
    assert_eq!(config.max_event_bytes, 2048);
}

#[test]
fn required_variables_are_named_in_order() {
    let mut env = environment();
    env.kafka_brokers = None;
    assert_eq!(missing(env), "KAFKA_BROKERS must be configured");

    let mut env = environment();
    env.clickhouse_url = None;
    env.kafka_brokers = None;
    assert_eq!(missing(env), "CLICKHOUSE_URL must be configured");

    let mut env = environment();
    env.database_url = None;
    env.clickhouse_url = None;
    assert_eq!(missing(env), "DATABASE_URL must be configured");

    let mut env = environment();
    env.listen_addr = None;
    env.max_event_bytes = Some("many".into());
    assert_eq!(missing(env), "LISTEN_ADDR must be configured");
}

#[test]
fn size_limits_are_decimal_numbers() {
    assert_eq!(limit("0"), Some(0));
    assert_eq!(limit("007"), Some(7));
    assert_eq!(limit("+12"), Some(12));
    assert_eq!(limit(&usize::MAX.to_string()), Some(usize::MAX));
}

#[test]
fn other_size_limits_are_refused() {
    assert_eq!(limit(""), None);
    assert_eq!(limit("+"), None);
    assert_eq!(limit("++1"), None);
    assert_eq!(limit("-1"), None);
    assert_eq!(limit(" 1"), None);
    assert_eq!(limit("1_000"), None);
    assert_eq!(limit("1.5"), None);
    assert_eq!(limit("0x10"), None);
    assert_eq!(limit(&format!("{}0", usize::MAX)), None);
}

#[test]
fn refused_size_limits_are_told_apart() {
    let empty = "cannot parse integer from empty string".to_string();
    let digit = "invalid digit found in string".to_string();
    let large = "number too large to fit in target type".to_string();
    assert_eq!(refusal(""), (NumberError::Empty, empty));
    for text in ["1k", "+", "-", "++1", "-1", " 1", "1 ", "1_000", "1.5", "0x10", "\u{663}"] {
        assert_eq!(refusal(text), (NumberError::InvalidDigit, digit.clone()), "{text}");
    }
    let over = format!("{}0", usize::MAX);
    assert_eq!(refusal(&over), (NumberError::TooLarge, large.clone()));
    assert_eq!(refusal(&format!("+{over}")), (NumberError::TooLarge, large));
}

#[test]
fn refusals_read_as_those_of_the_standard_library() {
    for text in ["", "1k", "99999999999999999999999"] {
        let error = text.parse::<usize>().unwrap_err();
        assert_eq!(refusal(text).1, error.to_string());
    }
}

#[test]
fn missing_variables_are_told_as_they_are() {
    let mut env = environment();
    env.database_url = None;
    match Config::from_env(env) {
        Err(error) => assert_eq!(error.to_string(), "DATABASE_URL must be configured"),
        Ok(config) => panic!("{config:?}"),
    }
}

#[test]
fn required_values_are_handed_on() {
    assert_eq!(required_env("NAME", Some("value".into())), Ok("value".to_string()));
    assert_eq!(required_env("NAME", Some("".into())), Ok("".to_string()));
    assert_eq!(
        required_env("NAME", None),
        Err("NAME must be configured".to_string())
    );
}

#[test]
fn topics_are_split_by_event_type() {
    let config = Config::from_env(environment()).unwrap();
    assert_eq!(config.topic(EventType::Trace), "jsexpert.events.trace");
    assert_eq!(config.topic(EventType::Error), "jsexpert.events.error");
    assert_eq!(config.topic(EventType::Activity), "jsexpert.events.activity");
    assert_eq!(config.dlq_topic(), "jsexpert.events.dlq");
}

#[test]
fn consumers_read_the_three_event_topics() {
    let config = Config::from_env(environment()).unwrap().clone();
    assert_eq!(
        config.event_topics(),
        vec![
            "jsexpert.events.trace".to_string(),
            "jsexpert.events.error".to_string(),
            "jsexpert.events.activity".to_string(),
        ]
    );
}
