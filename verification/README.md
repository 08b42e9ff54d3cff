# JsExpert Stream

The multi-tenant ingestion boundary of JsExpert. A request is authenticated
against the project registry, its event is stamped with the tenant and the
project that the registry gives, and the event is published to Kafka. A consumer
writes the events to ClickHouse and sends what it cannot decode to a dead-letter
topic.

```text
SDK / application -> ingestion API -> Kafka -> consumer -> ClickHouse
```

## Layout

- `src/` is the library: every decision of the service, verified with Verus.
  - `domain/event.rs`: events, their validation, their stamping and their keys.
  - `config.rs`: settings and topics.
  - `auth.rs`, `error.rs`: credentials, identities and refusals.
  - `transport/http.rs`: what becomes of a request, step by step.
  - `transport/kafka.rs`: records, dead letters and the producer's settings.
  - `infrastructure/clickhouse.rs`: rows and error fingerprints.
  - `infrastructure/consumer.rs`: the consumer as a state machine.
  - `laws.rs`: what holds of an event on its whole way.
  - `text.rs`: numbers and bytes as text.
  - `outside.rs`: what is believed of other crates and of the standard library.
- `app/` is the program: sockets, the registry, the broker, the store, JSON.
- `tests/` runs the library.

## Guarantees

Each of these is a proof function or a postcondition in `src/`.

- An event belongs to the tenant and the project that the registry gives for its
  credentials, whatever its payload says.
- Every event goes to the topic of its kind, under the key
  `tenant_id:project_id:event_type`.
- An identifier that a client gives is the one that is published, answered with
  and stored.
- An offset is committed only after the event has been stored or its dead letter
  has been sent. A commit covers the lower offsets of its partition too, so it is
  made only once every message delivered before that it covers has been stored or
  dead-lettered. A message that could not be stored holds back the higher offsets
  of its partition, and nothing else, until it is delivered again after a
  rebalance or a restart.
- A message that cannot be decoded is dead-lettered with the error and its text.
- The fingerprint of an error depends on its name, message and stack alone.
