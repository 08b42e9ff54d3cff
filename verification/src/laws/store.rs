//! What is stored of an event.

use serde_json::Value;
use vstd::prelude::*;
use vstd::utf8::encode_utf8;

use crate::domain::event::KafkaEvent;
use crate::infrastructure::clickhouse::{
    error_fingerprint, error_source, fingerprint, payload_string, StoredEvent,
};
use crate::laws::config::{is_word_of, names_are_words};
use crate::laws::text::{hex_text_spells_bytes, spells_bytes};
use crate::outside::{json_strings, json_text, sha256};

verus! {

/// Whether a text is what a payload has under a key: the whole text of its string
/// member, or the empty text where it has none.
pub open spec fn is_member_text(payload: Value, key: Seq<char>, text: Seq<char>) -> bool {
    if json_strings(payload).contains_key(key) {
        text == json_strings(payload)[key]
    } else {
        text.len() == 0
    }
}

/// What is read from a payload is the whole text of its member.
pub proof fn members_are_read_in_full(payload: &Value, key: &str, text: &str)
    requires
        call_ensures(payload_string, (payload, key), text),
    ensures
        is_member_text(*payload, key@, text@),
{
}

/// Whether a text names an error: its name, its message and its stack in full,
/// with bars between them.
pub open spec fn names_error(
    source: Seq<char>,
    name: Seq<char>,
    message: Seq<char>,
    stack: Seq<char>,
) -> bool {
    &&& source.len() == name.len() + 1 + message.len() + 1 + stack.len()
    &&& source.take(name.len() as int) == name
    &&& source[name.len() as int] == '|'
    &&& source.skip(name.len() as int + 1).take(message.len() as int) == message
    &&& source[name.len() as int + 1 + message.len()] == '|'
    &&& source.skip(name.len() as int + message.len() + 2) == stack
}

/// The text that is joined of three texts names the error that they are of.
proof fn joined_texts_name_errors(name: Seq<char>, message: Seq<char>, stack: Seq<char>)
    ensures
        names_error(name + "|"@ + message + "|"@ + stack, name, message, stack),
{
    reveal_strlit("|");
    let source = name + "|"@ + message + "|"@ + stack;
    assert(source.take(name.len() as int) =~= name);
    assert(source.skip(name.len() as int + 1).take(message.len() as int) =~= message);
    assert(source.skip(name.len() as int + message.len() + 2) =~= stack);
}

/// There is one text that names an error.
proof fn errors_are_named_once(
    a: Seq<char>,
    b: Seq<char>,
    name: Seq<char>,
    message: Seq<char>,
    stack: Seq<char>,
)
    requires
        names_error(a, name, message, stack),
        names_error(b, name, message, stack),
    ensures
        a == b,
{
    let rest = name.len() as int + 1;
    let tail = name.len() as int + message.len() + 2;
    assert forall|i: int| 0 <= i < a.len() implies a[i] == b[i] by {
        if i < name.len() {
            assert(a.take(name.len() as int)[i] == b.take(name.len() as int)[i]);
        } else if rest <= i < tail - 1 {
            assert(a.skip(rest).take(message.len() as int)[i - rest] == b.skip(rest).take(
                message.len() as int,
            )[i - rest]);
        } else if tail <= i {
            assert(a.skip(tail)[i - tail] == b.skip(tail)[i - tail]);
        }
    }
    assert(a =~= b);
}

/// The text that an error is told by holds its name, its message and its stack,
/// every character of them.
pub proof fn errors_are_told_by_name_message_and_stack(
    payload: &Value,
    source: String,
    name: Seq<char>,
    message: Seq<char>,
    stack: Seq<char>,
)
    requires
        call_ensures(error_source, (payload,), source),
        is_member_text(*payload, "name"@, name),
        is_member_text(*payload, "message"@, message),
        is_member_text(*payload, "stack"@, stack),
    ensures
        names_error(source@, name, message, stack),
{
    assert(!json_strings(*payload).contains_key("name"@) ==> name =~= Seq::empty());
    assert(!json_strings(*payload).contains_key("message"@) ==> message =~= Seq::empty());
    assert(!json_strings(*payload).contains_key("stack"@) ==> stack =~= Seq::empty());
    joined_texts_name_errors(name, message, stack);
}

/// Errors with one name and one message are told apart by their stacks, wherever
/// these differ, and by nothing else.
pub proof fn errors_differ_where_their_stacks_do(
    a: &Value,
    source_a: String,
    stack_a: Seq<char>,
    b: &Value,
    source_b: String,
    stack_b: Seq<char>,
    name: Seq<char>,
    message: Seq<char>,
)
    requires
        call_ensures(error_source, (a,), source_a),
        call_ensures(error_source, (b,), source_b),
        is_member_text(*a, "name"@, name),
        is_member_text(*b, "name"@, name),
        is_member_text(*a, "message"@, message),
        is_member_text(*b, "message"@, message),
        is_member_text(*a, "stack"@, stack_a),
        is_member_text(*b, "stack"@, stack_b),
    ensures
        source_a@ == source_b@ <==> stack_a == stack_b,
{
    errors_are_told_by_name_message_and_stack(a, source_a, name, message, stack_a);
    errors_are_told_by_name_message_and_stack(b, source_b, name, message, stack_b);
    if stack_a == stack_b {
        errors_are_named_once(source_a@, source_b@, name, message, stack_a);
    }
}

/// The fingerprint of an error is the digest of the text that names it, spelled
/// out; any other event has none.
pub proof fn fingerprints_are_digests(
    event: KafkaEvent,
    text: String,
    source: Seq<char>,
    name: Seq<char>,
    message: Seq<char>,
    stack: Seq<char>,
)
    requires
        call_ensures(error_fingerprint, (&event,), text),
        is_member_text(event.payload, "name"@, name),
        is_member_text(event.payload, "message"@, message),
        is_member_text(event.payload, "stack"@, stack),
        names_error(source, name, message, stack),
    ensures
        event.event_type is Error ==> spells_bytes(text@, sha256(encode_utf8(source))),
        !(event.event_type is Error) ==> text@.len() == 0,
{
    fingerprint_spells_digest(event, text@, source, name, message, stack);
}

/// The fingerprint of an event is spelled out of the digest of what names it.
proof fn fingerprint_spells_digest(
    event: KafkaEvent,
    text: Seq<char>,
    source: Seq<char>,
    name: Seq<char>,
    message: Seq<char>,
    stack: Seq<char>,
)
    requires
        text == fingerprint(event.event_type, event.payload),
        is_member_text(event.payload, "name"@, name),
        is_member_text(event.payload, "message"@, message),
        is_member_text(event.payload, "stack"@, stack),
        names_error(source, name, message, stack),
    ensures
        event.event_type is Error ==> spells_bytes(text, sha256(encode_utf8(source))),
        !(event.event_type is Error) ==> text.len() == 0,
{
    let strings = json_strings(event.payload);
    assert(!strings.contains_key("name"@) ==> name =~= Seq::empty());
    assert(!strings.contains_key("message"@) ==> message =~= Seq::empty());
    assert(!strings.contains_key("stack"@) ==> stack =~= Seq::empty());
    joined_texts_name_errors(name, message, stack);
    errors_are_named_once(
        source,
        name + "|"@ + message + "|"@ + stack,
        name,
        message,
        stack,
    );
    hex_text_spells_bytes(sha256(encode_utf8(source)));
}

/// Whether a row holds an event: its identifier, its owner, its kind in a word,
/// its times, its texts with the empty text for what it has not, and its payload
/// as JSON.
pub open spec fn is_row_of(stored: StoredEvent, event: KafkaEvent) -> bool {
    &&& stored.event_id == event.event_id
    &&& stored.tenant_id@ == event.tenant_id@
    &&& stored.project_id@ == event.project_id@
    &&& is_word_of(stored.event_type@, event.event_type)
    &&& stored.occurred_at == event.occurred_at
    &&& stored.received_at == event.received_at
    &&& match event.event_name {
        Some(name) => stored.event_name@ == name@,
        None => stored.event_name@.len() == 0,
    }
    &&& match event.actor_id {
        Some(actor) => stored.actor_id@ == actor@,
        None => stored.actor_id@.len() == 0,
    }
    &&& match event.trace_id {
        Some(trace) => stored.trace_id@ == trace@,
        None => stored.trace_id@.len() == 0,
    }
    &&& stored.payload@ == json_text(event.payload)
    &&& event.event_type is Error || stored.error_fingerprint@.len() == 0
}

/// A row that stores an event holds it, and its fingerprint is the digest of the
/// error.
pub(crate) proof fn stored_events_are_rows(
    stored: StoredEvent,
    event: KafkaEvent,
    source: Seq<char>,
    name: Seq<char>,
    message: Seq<char>,
    stack: Seq<char>,
)
    requires
        stored.stores(event),
    ensures
        is_row_of(stored, event),
        event.event_type is Error && is_member_text(event.payload, "name"@, name) && is_member_text(
            event.payload,
            "message"@,
            message,
        ) && is_member_text(event.payload, "stack"@, stack) && names_error(
            source,
            name,
            message,
            stack,
        ) ==> spells_bytes(stored.error_fingerprint@, sha256(encode_utf8(source))),
{
    names_are_words(event.event_type);
    if is_member_text(event.payload, "name"@, name) && is_member_text(
        event.payload,
        "message"@,
        message,
    ) && is_member_text(event.payload, "stack"@, stack) && names_error(
        source,
        name,
        message,
        stack,
    ) {
        fingerprint_spells_digest(
            event,
            stored.error_fingerprint@,
            source,
            name,
            message,
            stack,
        );
    }
}

/// Every event has a row, and the row holds the event. The fingerprint of an
/// error is the digest of its name, its message and its stack.
pub proof fn rows_hold_their_events(
    event: KafkaEvent,
    stored: Result<StoredEvent, serde_json::Error>,
    source: Seq<char>,
    name: Seq<char>,
    message: Seq<char>,
    stack: Seq<char>,
)
    requires
        call_ensures(StoredEvent::from_event, (&event,), stored),
    ensures
        stored is Ok,
        is_row_of(stored->Ok_0, event),
        event.event_type is Error && is_member_text(event.payload, "name"@, name) && is_member_text(
            event.payload,
            "message"@,
            message,
        ) && is_member_text(event.payload, "stack"@, stack) && names_error(
            source,
            name,
            message,
            stack,
        ) ==> spells_bytes(stored->Ok_0.error_fingerprint@, sha256(encode_utf8(source))),
{
    stored_events_are_rows(stored->Ok_0, event, source, name, message, stack);
}

} // verus!
