use fast_chat::errors::{AppError, AppErrorType};
use fast_chat::graphql::user::schema::User;
use fast_chat::instant::Timestamp;
use fast_chat::service::entry::{EntryField, EntryId, EntryValue, LogEntry};
use fast_chat::service::stream::{
    AsyncEvent, EventRedisStream, PersistenceOp, ASYNC_EVENT_DELETE, ASYNC_EVENT_MARK_AS_SEEN,
    ASYNC_EVENT_SEND, ASYNC_EVENT_UPDATE, REDIS_ENTRY_VALUE,
};
use fast_chat::ws::schema::{MessageStatus, SocketMessage, SocketMessageContent};

fn content(id: u128, text: &str) -> SocketMessageContent {
    SocketMessageContent {
        id,
        content: text.to_string(),
        author: User {
            id: 7,
            name: "ann".to_string(),
            email: "ann@example.com".to_string(),
            password: "x".to_string(),
            created_at: Timestamp { secs: 1, nanos: 2 },
            updated_at: Timestamp { secs: 3, nanos: 4 },
        },
        room: 99,
        status: MessageStatus::Sent,
        created_at: Timestamp { secs: 1_700_000_000, nanos: 5 },
    }
}

// A small codec for the tests: a tag, then identifiers of 16 bytes each, or
// an identifier and a text.
fn encode(event: &AsyncEvent) -> Vec<u8> {
    let mut out = Vec::new();
    match event {
        AsyncEvent::Send(c) => {
            out.push(1);
            out.extend_from_slice(&c.id.to_be_bytes());
            out.extend_from_slice(c.content.as_bytes());
        }
        AsyncEvent::Update(c) => {
            out.push(2);
            out.extend_from_slice(&c.id.to_be_bytes());
            out.extend_from_slice(c.content.as_bytes());
        }
        AsyncEvent::Delete(ids) => {
            out.push(3);
            for id in ids {
                out.extend_from_slice(&id.to_be_bytes());
            }
        }
        AsyncEvent::MarkAsSeen(ids) => {
            out.push(4);
            for id in ids {
                out.extend_from_slice(&id.to_be_bytes());
            }
        }
    }
    out
}

fn read_id(bytes: &[u8]) -> Option<u128> {
    let mut raw = [0u8; 16];
    if bytes.len() < 16 {
        return None;
    }
    raw.copy_from_slice(&bytes[..16]);
    Some(u128::from_be_bytes(raw))
}

fn decode(bytes: &Vec<u8>) -> Option<AsyncEvent> {
    let (tag, rest) = bytes.split_first()?;
    match tag {
        1 | 2 => {
            let id = read_id(rest)?;
            let text = String::from_utf8(rest[16..].to_vec()).ok()?;
            let c = content(id, &text);
            Some(if *tag == 1 { AsyncEvent::Send(c) } else { AsyncEvent::Update(c) })
        }
        3 | 4 => {
            if rest.len() % 16 != 0 {
                return None;
            }
            let ids: Vec<u128> = rest.chunks(16).map(|c| read_id(c).unwrap()).collect();
            Some(if *tag == 3 { AsyncEvent::Delete(ids) } else { AsyncEvent::MarkAsSeen(ids) })
        }
        _ => None,
    }
}

fn entry(ms: u64, seq: u64, payload: Vec<u8>) -> LogEntry {
    LogEntry {
        id: EntryId { ms, seq },
        fields: vec![EntryField {
            name: REDIS_ENTRY_VALUE.to_string(),
            value: EntryValue::Data(payload),
        }],
    }
}

fn internal(message: &str) -> AppError {
    AppError::new(message.to_string(), AppErrorType::InternalServerError)
}

#[test]
fn the_names_of_the_log_are_fixed() {
    assert_eq!(REDIS_ENTRY_VALUE, "value");
    assert_eq!(ASYNC_EVENT_SEND, "ASYNC_EVENT_SEND");
    assert_eq!(ASYNC_EVENT_UPDATE, "ASYNC_EVENT_UPDATE");
    assert_eq!(ASYNC_EVENT_DELETE, "ASYNC_EVENT_DELETE");
    assert_eq!(ASYNC_EVENT_MARK_AS_SEEN, "ASYNC_EVENT_MARK_AS_SEEN");
}

#[test]
fn each_kind_of_event_has_its_partition() {
    assert_eq!(AsyncEvent::Send(content(1, "a")).partition(), "ASYNC_EVENT_SEND");
    assert_eq!(AsyncEvent::Update(content(1, "a")).partition(), "ASYNC_EVENT_UPDATE");
    assert_eq!(AsyncEvent::Delete(vec![1]).partition(), "ASYNC_EVENT_DELETE");
    assert_eq!(AsyncEvent::MarkAsSeen(vec![1]).partition(), "ASYNC_EVENT_MARK_AS_SEEN");
}

#[test]
fn wire_events_map_to_durable_events() {
    assert_eq!(
        AsyncEvent::from_wire(&SocketMessage::Send(content(1, "a"))),
        Some(AsyncEvent::Send(content(1, "a")))
    );
    assert_eq!(
        AsyncEvent::from_wire(&SocketMessage::Update(content(2, "b"))),
        Some(AsyncEvent::Update(content(2, "b")))
    );
    assert_eq!(
        AsyncEvent::from_wire(&SocketMessage::Delete(vec![3, 4])),
        Some(AsyncEvent::Delete(vec![3, 4]))
    );
    assert_eq!(
        AsyncEvent::from_wire(&SocketMessage::Seen(vec![5])),
        Some(AsyncEvent::MarkAsSeen(vec![5]))
    );
    assert_eq!(AsyncEvent::from_wire(&SocketMessage::Typing), None);
    assert_eq!(AsyncEvent::from_wire(&SocketMessage::Ping), None);
    assert_eq!(AsyncEvent::from_wire(&SocketMessage::Pong), None);
    assert_eq!(AsyncEvent::from_wire(&SocketMessage::Close), None);
}

#[test]
fn an_event_becomes_one_field_named_value() {
    let event = AsyncEvent::Delete(vec![10, 11]);
    let expected = encode(&event);
    let fields = event.into_tuple_array(encode);
    assert_eq!(fields, vec![("value", expected)]);
}

#[test]
fn an_append_goes_to_the_partition_of_the_stream() {
    let stream = EventRedisStream::new(ASYNC_EVENT_SEND);
    assert_eq!(stream.stream_key(), "ASYNC_EVENT_SEND");
    let event = AsyncEvent::Send(content(1, "hi"));
    let expected = encode(&event);
    let request = stream.add_to_stream(event, encode);
    assert_eq!(request.key, "ASYNC_EVENT_SEND");
    assert_eq!(request.fields, vec![("value", expected)]);
}

#[test]
fn a_refused_append_names_the_partition() {
    let stream = EventRedisStream::new("ASYNC_EVENT_DELETE");
    let e = stream.append_failure("connection reset".to_string());
    assert_eq!(e.detail(), "Stream read with key - ASYNC_EVENT_DELETE failed.");
    assert_eq!(e.error_type(), &AppErrorType::RedisError("connection reset".to_string()));
}

#[test]
fn a_new_stream_reads_from_the_start() {
    let stream = EventRedisStream::new("p");
    assert_eq!(stream.cursor(), EntryId { ms: 0, seq: 0 });
    let request = stream.read_request();
    assert_eq!(request.key, "p");
    assert_eq!(request.after, EntryId::start());
}

#[test]
fn a_partition_without_entries_is_an_empty_result() {
    let mut stream = EventRedisStream::new("p");
    assert_eq!(stream.read_stream(None, decode), Ok(vec![]));
    assert_eq!(stream.read_stream(Some(vec![]), decode), Ok(vec![]));
    assert_eq!(stream.cursor(), EntryId::start());
}

#[test]
fn appended_events_are_read_back_in_order() {
    let events = vec![
        AsyncEvent::Send(content(1, "one")),
        AsyncEvent::Send(content(2, "two")),
        AsyncEvent::Update(content(1, "uno")),
        AsyncEvent::Delete(vec![2]),
        AsyncEvent::MarkAsSeen(vec![1, 2, 3]),
    ];
    let stream = EventRedisStream::new("p");
    // What the log holds after the appends: one entry per request, each at a
    // later position.
    let mut entries = Vec::new();
    for (i, event) in events.iter().enumerate() {
        let request = stream.add_to_stream(event.clone(), encode);
        let fields = request
            .fields
            .into_iter()
            .map(|(name, bytes)| EntryField {
                name: name.to_string(),
                value: EntryValue::Data(bytes),
            })
            .collect();
        entries.push(LogEntry { id: EntryId { ms: 1000, seq: i as u64 + 1 }, fields });
    }
    let mut reader = EventRedisStream::new("p");
    let read = reader.read_stream(Some(entries), decode).unwrap();
    assert_eq!(read.len(), 5);
    assert_eq!(read, events);
    assert_eq!(reader.cursor(), EntryId { ms: 1000, seq: 5 });
}

#[test]
fn entries_read_before_are_not_handed_out_again() {
    let first = vec![
        entry(1, 0, encode(&AsyncEvent::Delete(vec![1]))),
        entry(2, 0, encode(&AsyncEvent::Delete(vec![2]))),
    ];
    let mut later = vec![
        entry(1, 0, encode(&AsyncEvent::Delete(vec![1]))),
        entry(2, 0, encode(&AsyncEvent::Delete(vec![2]))),
    ];
    later.push(entry(2, 1, encode(&AsyncEvent::Delete(vec![3]))));
    let mut stream = EventRedisStream::new("p");
    assert_eq!(
        stream.read_stream(Some(first), decode),
        Ok(vec![AsyncEvent::Delete(vec![1]), AsyncEvent::Delete(vec![2])])
    );
    assert_eq!(stream.cursor(), EntryId { ms: 2, seq: 0 });
    // The same partition, read in full once more, with one entry appended.
    assert_eq!(stream.read_stream(Some(later), decode), Ok(vec![AsyncEvent::Delete(vec![3])]));
    assert_eq!(stream.cursor(), EntryId { ms: 2, seq: 1 });
    assert_eq!(stream.read_request().after, EntryId { ms: 2, seq: 1 });
}

#[test]
fn a_second_read_of_the_same_entries_hands_out_nothing() {
    let make = || {
        vec![
            entry(5, 0, encode(&AsyncEvent::MarkAsSeen(vec![1]))),
            entry(5, 1, encode(&AsyncEvent::MarkAsSeen(vec![2]))),
        ]
    };
    let mut stream = EventRedisStream::new("p");
    assert_eq!(stream.read_stream(Some(make()), decode).unwrap().len(), 2);
    assert_eq!(stream.read_stream(Some(make()), decode), Ok(vec![]));
    assert_eq!(stream.cursor(), EntryId { ms: 5, seq: 1 });
}

#[test]
fn positions_are_ordered_by_time_then_number() {
    let a = EntryId { ms: 1, seq: 9 };
    let b = EntryId { ms: 2, seq: 0 };
    let c = EntryId { ms: 2, seq: 1 };
    assert!(a.precedes(b));
    assert!(b.precedes(c));
    assert!(a.precedes(c));
    assert!(!b.precedes(a));
    assert!(!b.precedes(b));
    assert!(EntryId::start().precedes(EntryId { ms: 0, seq: 1 }));
}

#[test]
fn an_entry_without_the_value_field_fails_the_whole_read() {
    let bad = LogEntry {
        id: EntryId { ms: 2, seq: 0 },
        fields: vec![EntryField {
            name: "other".to_string(),
            value: EntryValue::Data(encode(&AsyncEvent::Delete(vec![1]))),
        }],
    };
    let entries = vec![entry(1, 0, encode(&AsyncEvent::Delete(vec![1]))), bad];
    let mut stream = EventRedisStream::new("p");
    assert_eq!(stream.read_stream(Some(entries), decode), Err(internal("StreamId read error")));
    assert_eq!(stream.cursor(), EntryId::start());
}

#[test]
fn a_value_that_is_no_string_of_bytes_fails_the_whole_read() {
    let bad = LogEntry {
        id: EntryId { ms: 1, seq: 0 },
        fields: vec![EntryField { name: "value".to_string(), value: EntryValue::Other }],
    };
    let mut stream = EventRedisStream::new("p");
    assert_eq!(
        stream.read_stream(Some(vec![bad]), decode),
        Err(internal("Deserialization error."))
    );
    assert_eq!(stream.cursor(), EntryId::start());
}

#[test]
fn an_entry_that_does_not_decode_fails_the_whole_read() {
    let entries = vec![
        entry(1, 0, encode(&AsyncEvent::Delete(vec![1]))),
        entry(2, 0, vec![0xff, 0x00]),
        entry(3, 0, encode(&AsyncEvent::Delete(vec![3]))),
    ];
    let mut stream = EventRedisStream::new("p");
    assert_eq!(stream.read_stream(Some(entries), decode), Err(internal("Deserialization error.")));
    assert_eq!(stream.cursor(), EntryId::start());
}

#[test]
fn the_first_bad_entry_gives_the_error() {
    let no_field = LogEntry { id: EntryId { ms: 1, seq: 0 }, fields: vec![] };
    let garbage = entry(2, 0, vec![9]);
    let mut stream = EventRedisStream::new("p");
    assert_eq!(
        stream.read_stream(Some(vec![no_field, garbage]), decode),
        Err(internal("StreamId read error"))
    );
    let no_field = LogEntry { id: EntryId { ms: 2, seq: 0 }, fields: vec![] };
    let garbage = entry(1, 0, vec![9]);
    assert_eq!(
        stream.read_stream(Some(vec![garbage, no_field]), decode),
        Err(internal("Deserialization error."))
    );
}

#[test]
fn a_bad_entry_behind_the_reader_is_passed_over() {
    let mut stream = EventRedisStream::new("p");
    let first = vec![entry(4, 0, encode(&AsyncEvent::Delete(vec![1])))];
    assert!(stream.read_stream(Some(first), decode).is_ok());
    let again = vec![entry(3, 0, vec![9]), entry(4, 1, encode(&AsyncEvent::Delete(vec![2])))];
    assert_eq!(stream.read_stream(Some(again), decode), Ok(vec![AsyncEvent::Delete(vec![2])]));
}

#[test]
fn the_first_field_of_a_name_is_the_one_found() {
    let e = LogEntry {
        id: EntryId { ms: 1, seq: 0 },
        fields: vec![
            EntryField { name: "a".to_string(), value: EntryValue::Other },
            EntryField { name: "value".to_string(), value: EntryValue::Data(vec![1]) },
            EntryField { name: "value".to_string(), value: EntryValue::Data(vec![2]) },
        ],
    };
    assert_eq!(e.get(&"value".to_string()), Some(&EntryValue::Data(vec![1])));
    assert_eq!(e.get(&"a".to_string()), Some(&EntryValue::Other));
    assert_eq!(e.get(&"b".to_string()), None);
}

#[test]
fn a_field_value_decodes_or_is_an_error() {
    let good = EntryValue::Data(encode(&AsyncEvent::Delete(vec![8])));
    assert_eq!(AsyncEvent::from_redis_value(&good, &decode), Ok(AsyncEvent::Delete(vec![8])));
    let garbage = EntryValue::Data(vec![]);
    assert_eq!(
        AsyncEvent::from_redis_value(&garbage, &decode),
        Err(internal("Deserialization error."))
    );
    assert_eq!(
        AsyncEvent::from_redis_value(&EntryValue::Other, &decode),
        Err(internal("Deserialization error."))
    );
}

#[test]
fn each_event_resolves_to_one_call_on_the_store() {
    let stream = EventRedisStream::new("p");
    assert_eq!(
        stream.process_event(AsyncEvent::Send(content(1, "a"))),
        PersistenceOp::InsertMessage(content(1, "a"))
    );
    assert_eq!(
        stream.process_event(AsyncEvent::Update(content(2, "b"))),
        PersistenceOp::UpdateMessage { id: 2, content: "b".to_string() }
    );
    assert_eq!(
        stream.process_event(AsyncEvent::Delete(vec![3, 4])),
        PersistenceOp::DeleteMessages(vec![3, 4])
    );
    assert_eq!(
        stream.process_event(AsyncEvent::MarkAsSeen(vec![5])),
        PersistenceOp::MarkAsSeen(vec![5])
    );
}
