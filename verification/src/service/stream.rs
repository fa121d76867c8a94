//! The durable event log: what is appended to a partition, what is read back
//! from it, and how far a reader has got.

use crate::errors::{AppError, AppErrorType, AppErrorView, ErrorKind};
use crate::service::entry::{
    cursor_after,
    field_index,
    fresh_entries,
    lemma_cursor_moves_forward,
    lemma_nothing_fresh_behind,
    lemma_rising_all_fresh,
    rising_from,
    EntryId,
    EntryValue,
    LogEntry,
};
use crate::ws::schema::{copy_ids, ContentView, SocketMessage, SocketMessageContent, WireEvent};
use vstd::prelude::*;
use vstd::string::StringExecFns;

verus! {

/// The field under which every log entry holds its event.
pub const REDIS_ENTRY_VALUE: &'static str = "value";

/// The partition of sent messages.
pub const ASYNC_EVENT_SEND: &'static str = "ASYNC_EVENT_SEND";

/// The partition of edited messages.
pub const ASYNC_EVENT_UPDATE: &'static str = "ASYNC_EVENT_UPDATE";

/// The partition of deletions.
pub const ASYNC_EVENT_DELETE: &'static str = "ASYNC_EVENT_DELETE";

/// The partition of read receipts.
pub const ASYNC_EVENT_MARK_AS_SEEN: &'static str = "ASYNC_EVENT_MARK_AS_SEEN";

/// An event as the log holds it.
#[derive(Debug, PartialEq, Eq)]
pub enum AsyncEvent {
    Send(SocketMessageContent),
    Update(SocketMessageContent),
    Delete(Vec<u128>),
    MarkAsSeen(Vec<u128>),
}

/// The mathematical value of an [`AsyncEvent`].
pub enum DurableEvent {
    Send(ContentView),
    Update(ContentView),
    Delete(Seq<u128>),
    MarkAsSeen(Seq<u128>),
}

impl View for AsyncEvent {
    type V = DurableEvent;

    open spec fn view(&self) -> DurableEvent {
        match self {
            AsyncEvent::Send(content) => DurableEvent::Send(content@),
            AsyncEvent::Update(content) => DurableEvent::Update(content@),
            AsyncEvent::Delete(ids) => DurableEvent::Delete(ids@),
            AsyncEvent::MarkAsSeen(ids) => DurableEvent::MarkAsSeen(ids@),
        }
    }
}

impl Clone for AsyncEvent {
    fn clone(&self) -> (copy: Self)
        ensures
            copy@ == self@,
    {
        match self {
            AsyncEvent::Send(content) => AsyncEvent::Send(content.clone()),
            AsyncEvent::Update(content) => AsyncEvent::Update(content.clone()),
            AsyncEvent::Delete(ids) => AsyncEvent::Delete(copy_ids(ids)),
            AsyncEvent::MarkAsSeen(ids) => AsyncEvent::MarkAsSeen(copy_ids(ids)),
        }
    }
}

/// The durable event that a wire event is persisted as, if it is persisted.
pub open spec fn durable_of(event: WireEvent) -> Option<DurableEvent> {
    match event {
        WireEvent::Send(content) => Some(DurableEvent::Send(content)),
        WireEvent::Update(content) => Some(DurableEvent::Update(content)),
        WireEvent::Delete(ids) => Some(DurableEvent::Delete(ids)),
        WireEvent::Seen(ids) => Some(DurableEvent::MarkAsSeen(ids)),
        WireEvent::Typing => None,
        WireEvent::Ping => None,
        WireEvent::Pong => None,
        WireEvent::Close => None,
    }
}

/// The name of the partition that holds events of a kind.
pub open spec fn partition_of(event: DurableEvent) -> Seq<char> {
    match event {
        DurableEvent::Send(_) => ASYNC_EVENT_SEND@,
        DurableEvent::Update(_) => ASYNC_EVENT_UPDATE@,
        DurableEvent::Delete(_) => ASYNC_EVENT_DELETE@,
        DurableEvent::MarkAsSeen(_) => ASYNC_EVENT_MARK_AS_SEEN@,
    }
}

impl AsyncEvent {
    /// The durable form of a wire event. Typing notices, pings, pongs and
    /// closes are never persisted.
    pub fn from_wire(event: &SocketMessage) -> (durable: Option<AsyncEvent>)
        ensures
            match durable {
                Some(d) => durable_of(event@) == Some(d@),
                None => durable_of(event@) is None,
            },
    {
        match event {
            SocketMessage::Send(content) => Some(AsyncEvent::Send(content.clone())),
            SocketMessage::Update(content) => Some(AsyncEvent::Update(content.clone())),
            SocketMessage::Delete(ids) => Some(AsyncEvent::Delete(copy_ids(ids))),
            SocketMessage::Seen(ids) => Some(AsyncEvent::MarkAsSeen(copy_ids(ids))),
            SocketMessage::Typing => None,
            SocketMessage::Ping => None,
            SocketMessage::Pong => None,
            SocketMessage::Close => None,
        }
    }

    /// The name of the partition that this event is appended to.
    pub fn partition(&self) -> (name: &'static str)
        ensures
            name@ == partition_of(self@),
    {
        match self {
            AsyncEvent::Send(_) => ASYNC_EVENT_SEND,
            AsyncEvent::Update(_) => ASYNC_EVENT_UPDATE,
            AsyncEvent::Delete(_) => ASYNC_EVENT_DELETE,
            AsyncEvent::MarkAsSeen(_) => ASYNC_EVENT_MARK_AS_SEEN,
        }
    }
}


/// One call on the store that holds the messages.
#[derive(Debug, PartialEq, Eq)]
pub enum PersistenceOp {
    InsertMessage(SocketMessageContent),
    UpdateMessage { id: u128, content: String },
    DeleteMessages(Vec<u128>),
    MarkAsSeen(Vec<u128>),
}

/// The mathematical value of a [`PersistenceOp`].
pub enum StoreCall {
    InsertMessage(ContentView),
    UpdateMessage { id: u128, content: Seq<char> },
    DeleteMessages(Seq<u128>),
    MarkAsSeen(Seq<u128>),
}

impl View for PersistenceOp {
    type V = StoreCall;

    open spec fn view(&self) -> StoreCall {
        match self {
            PersistenceOp::InsertMessage(content) => StoreCall::InsertMessage(content@),
            PersistenceOp::UpdateMessage { id, content } => StoreCall::UpdateMessage {
                id: *id,
                content: content@,
            },
            PersistenceOp::DeleteMessages(ids) => StoreCall::DeleteMessages(ids@),
            PersistenceOp::MarkAsSeen(ids) => StoreCall::MarkAsSeen(ids@),
        }
    }
}

/// The call on the store that persists a durable event.
pub open spec fn store_call_of(event: DurableEvent) -> StoreCall {
    match event {
        DurableEvent::Send(content) => StoreCall::InsertMessage(content),
        DurableEvent::Update(content) => StoreCall::UpdateMessage {
            id: content.id,
            content: content.content,
        },
        DurableEvent::Delete(ids) => StoreCall::DeleteMessages(ids),
        DurableEvent::MarkAsSeen(ids) => StoreCall::MarkAsSeen(ids),
    }
}

/// How an entry can fail to hold an event.
pub enum EntryFault {
    /// The entry has no field of the expected name.
    NoValue,
    /// The field does not hold a string of bytes.
    NotData,
}

/// The bytes of the event that an entry holds, or the way in which the entry
/// is malformed.
pub open spec fn payload_of(entry: LogEntry) -> Result<Vec<u8>, EntryFault> {
    match entry.field(REDIS_ENTRY_VALUE@) {
        None => Err(EntryFault::NoValue),
        Some(EntryValue::Other) => Err(EntryFault::NotData),
        Some(EntryValue::Data(bytes)) => Ok(bytes),
    }
}

/// The error for an entry without the expected field.
pub open spec fn entry_fault() -> AppErrorView {
    AppErrorView { message: "StreamId read error"@, kind: ErrorKind::InternalServer }
}

/// The error for an entry whose value is no event.
pub open spec fn decode_fault() -> AppErrorView {
    AppErrorView { message: "Deserialization error."@, kind: ErrorKind::InternalServer }
}

/// The error for an append that the log refused.
pub open spec fn append_fault(key: Seq<char>, cause: Seq<char>) -> AppErrorView {
    AppErrorView {
        message: "Stream read with key - "@ + key + " failed."@,
        kind: ErrorKind::Redis(cause),
    }
}

/// The decoder may be called on every string of bytes.
pub open spec fn total<F: Fn(&Vec<u8>) -> Option<AsyncEvent>>(decode: F) -> bool {
    forall|bytes: &Vec<u8>| call_requires(decode, (bytes,))
}

/// The entry holds bytes that the decoder turned into the event.
pub open spec fn decodes<F: Fn(&Vec<u8>) -> Option<AsyncEvent>>(
    decode: F,
    entry: LogEntry,
    event: AsyncEvent,
) -> bool {
    payload_of(entry) matches Ok(bytes) && call_ensures(decode, (&bytes,), Some(event))
}

/// The entry holds bytes that the decoder turned into some event.
pub open spec fn readable<F: Fn(&Vec<u8>) -> Option<AsyncEvent>>(
    decode: F,
    entry: LogEntry,
) -> bool {
    exists|event: AsyncEvent| decodes(decode, entry, event)
}

/// Reading the entry fails with the given error: it is malformed, or the
/// decoder refused its bytes.
pub open spec fn fails<F: Fn(&Vec<u8>) -> Option<AsyncEvent>>(
    decode: F,
    entry: LogEntry,
    error: AppErrorView,
) -> bool {
    match payload_of(entry) {
        Err(EntryFault::NoValue) => error == entry_fault(),
        Err(EntryFault::NotData) => error == decode_fault(),
        Ok(bytes) => call_ensures(decode, (&bytes,), None::<AsyncEvent>) && error
            == decode_fault(),
    }
}

/// A read stops at entry `at` with the given error: that entry is fresh to
/// the reader and fails, and every fresh entry before it was readable.
pub open spec fn stops_at<F: Fn(&Vec<u8>) -> Option<AsyncEvent>>(
    decode: F,
    entries: Seq<LogEntry>,
    cursor: EntryId,
    at: int,
    error: AppErrorView,
) -> bool {
    &&& 0 <= at < entries.len()
    &&& cursor_after(entries.subrange(0, at), cursor).precedes(entries[at].id)
    &&& fails(decode, entries[at], error)
    &&& forall|n: int|
        0 <= n < fresh_entries(entries.subrange(0, at), cursor).len() ==> readable(
            decode,
            #[trigger] fresh_entries(entries.subrange(0, at), cursor)[n],
        )
}

/// A read of a partition succeeds with the given events and moves the reader
/// from `start` to `end`: a partition without entries gives none and leaves
/// the reader in place; otherwise the events are those that the decoder made
/// of the fresh entries, in their order, and the reader stands at the latest
/// entry.
pub open spec fn hands_out<F: Fn(&Vec<u8>) -> Option<AsyncEvent>>(
    decode: F,
    reply: Option<Vec<LogEntry>>,
    start: EntryId,
    end: EntryId,
    events: Seq<AsyncEvent>,
) -> bool {
    match reply {
        None => events.len() == 0 && end == start,
        Some(entries) => {
            let fresh = fresh_entries(entries@, start);
            &&& end == cursor_after(entries@, start)
            &&& events.len() == fresh.len()
            &&& forall|n: int|
                0 <= n < events.len() ==> decodes(decode, fresh[n], #[trigger] events[n])
        },
    }
}

/// The request that appends one entry to a partition. The log chooses the
/// position of the entry.
#[derive(Debug, PartialEq, Eq)]
pub struct AppendRequest {
    pub key: String,
    pub fields: Vec<(&'static str, Vec<u8>)>,
}

/// The request that reads a partition beyond a position.
#[derive(Debug, PartialEq, Eq)]
pub struct ReadRequest {
    pub key: String,
    pub after: EntryId,
}

impl AsyncEvent {
    /// The fields of the log entry that holds this event: its encoding, under
    /// the one fixed name.
    pub fn into_tuple_array<E: FnOnce(&AsyncEvent) -> Vec<u8>>(self, encode: E) -> (fields: Vec<
        (&'static str, Vec<u8>),
    >)
        requires
            call_requires(encode, (&self,)),
        ensures
            fields@.len() == 1,
            fields@[0].0@ == REDIS_ENTRY_VALUE@,
            call_ensures(encode, (&self,), fields@[0].1),
    {
        let payload = encode(&self);
        let mut fields: Vec<(&'static str, Vec<u8>)> = Vec::new();
        fields.push((REDIS_ENTRY_VALUE, payload));
        fields
    }

    /// The event that a field of a log entry holds. A value that is no string
    /// of bytes, or whose bytes the decoder refuses, is an error.
    pub fn from_redis_value<F: Fn(&Vec<u8>) -> Option<AsyncEvent>>(
        value: &EntryValue,
        decode: &F,
    ) -> (r: Result<AsyncEvent, AppError>)
        requires
            total(*decode),
        ensures
            match r {
                Ok(event) => value matches EntryValue::Data(bytes) && call_ensures(
                    *decode,
                    (&bytes,),
                    Some(event),
                ),
                Err(e) => e@ == decode_fault() && (value matches EntryValue::Data(bytes)
                    ==> call_ensures(*decode, (&bytes,), None::<AsyncEvent>)),
            },
    {
        match value {
            EntryValue::Data(bytes) => match decode(bytes) {
                Some(event) => Ok(event),
                None => Err(
                    AppError::new(
                        String::from_str("Deserialization error."),
                        AppErrorType::InternalServerError,
                    ),
                ),
            },
            EntryValue::Other => Err(
                AppError::new(
                    String::from_str("Deserialization error."),
                    AppErrorType::InternalServerError,
                ),
            ),
        }
    }
}


/// The event that an entry holds.
fn read_entry<F: Fn(&Vec<u8>) -> Option<AsyncEvent>>(entry: &LogEntry, name: &String, decode: &F) -> (r:
    Result<AsyncEvent, AppError>)
    requires
        name@ == REDIS_ENTRY_VALUE@,
        total(*decode),
    ensures
        match r {
            Ok(event) => decodes(*decode, *entry, event),
            Err(e) => fails(*decode, *entry, e@),
        },
{
    match entry.get(name) {
        None => Err(
            AppError::new(
                String::from_str("StreamId read error"),
                AppErrorType::InternalServerError,
            ),
        ),
        Some(value) => AsyncEvent::from_redis_value(value, decode),
    }
}

/// Walks the entries from the given position: the events of the fresh ones
/// and the position reached, or the error of the first fresh entry that
/// fails.
fn walk<F: Fn(&Vec<u8>) -> Option<AsyncEvent>>(
    entries: &Vec<LogEntry>,
    start: EntryId,
    decode: &F,
) -> (r: Result<(Vec<AsyncEvent>, EntryId), AppError>)
    requires
        total(*decode),
    ensures
        match r {
            Ok((events, end)) => hands_out(*decode, Some(*entries), start, end, events@),
            Err(e) => exists|at: int| #[trigger] stops_at(*decode, entries@, start, at, e@),
        },
{
    let name = String::from_str(REDIS_ENTRY_VALUE);
    let mut events: Vec<AsyncEvent> = Vec::new();
    let mut cursor = start;
    let mut i: usize = 0;
    while i < entries.len()
        invariant
            i <= entries.len(),
            name@ == REDIS_ENTRY_VALUE@,
            total(*decode),
            cursor == cursor_after(entries@.subrange(0, i as int), start),
            events@.len() == fresh_entries(entries@.subrange(0, i as int), start).len(),
            forall|n: int|
                0 <= n < events@.len() ==> decodes(
                    *decode,
                    fresh_entries(entries@.subrange(0, i as int), start)[n],
                    #[trigger] events@[n],
                ),
        decreases entries.len() - i,
    {
        let entry = &entries[i];
        let ghost seen = entries@.subrange(0, i as int);
        let ghost fresh = fresh_entries(seen, start);
        proof {
            let next = entries@.subrange(0, i as int + 1);
            assert(next.drop_last() == seen);
            assert(next.last() == entries@[i as int]);
            assert forall|n: int| 0 <= n < fresh.len() implies readable(
                *decode,
                #[trigger] fresh[n],
            ) by {
                assert(decodes(*decode, fresh[n], events@[n]));
            }
        }
        if cursor.precedes(entry.id) {
            match read_entry(entry, &name, decode) {
                Err(e) => {
                    let r: Result<(Vec<AsyncEvent>, EntryId), AppError> = Err(e);
                    assert(r matches Err(e) && stops_at(*decode, entries@, start, i as int, e@));
                    return r;
                },
                Ok(event) => {
                    events.push(event);
                    cursor = entry.id;
                },
            }
        }
        i += 1;
    }
    assert(entries@.subrange(0, i as int) == entries@);
    Ok((events, cursor))
}

/// A reader and writer of one partition of the log. It remembers the position
/// up to which it has read, so that no entry is handed out twice.
#[derive(Debug)]
pub struct EventRedisStream {
    stream_key: String,
    cursor: EntryId,
}

impl EventRedisStream {
    /// The name of the partition.
    pub closed spec fn key(&self) -> Seq<char> {
        self.stream_key@
    }

    /// The position up to which the partition has been read.
    pub closed spec fn position(&self) -> EntryId {
        self.cursor
    }

    /// A stream on the named partition that has read nothing yet.
    pub fn new(stream_key: &str) -> (stream: Self)
        ensures
            stream.key() == stream_key@,
            stream.position() == EntryId::start(),
    {
        EventRedisStream { stream_key: String::from_str(stream_key), cursor: EntryId::start() }
    }

    /// The name of the partition.
    pub fn stream_key(&self) -> (key: &String)
        ensures
            key@ == self.key(),
    {
        &self.stream_key
    }

    /// The position up to which the partition has been read.
    pub fn cursor(&self) -> (at: EntryId)
        ensures
            at == self.position(),
    {
        self.cursor
    }

    /// The request that appends the event to this partition: one entry with
    /// one field, which holds the encoding of the event.
    pub fn add_to_stream<E: FnOnce(&AsyncEvent) -> Vec<u8>>(
        &self,
        event: AsyncEvent,
        encode: E,
    ) -> (request: AppendRequest)
        requires
            call_requires(encode, (&event,)),
        ensures
            request.key@ == self.key(),
            request.fields@.len() == 1,
            request.fields@[0].0@ == REDIS_ENTRY_VALUE@,
            call_ensures(encode, (&event,), request.fields@[0].1),
    {
        AppendRequest { key: self.stream_key.clone(), fields: event.into_tuple_array(encode) }
    }

    /// The error for an append to this partition that the log refused for the
    /// given cause.
    pub fn append_failure(&self, cause: String) -> (e: AppError)
        ensures
            e@ == append_fault(self.key(), cause@),
    {
        let message = String::from_str("Stream read with key - ").concat(
            self.stream_key.as_str(),
        ).concat(" failed.");
        AppError::new(message, AppErrorType::RedisError(cause))
    }

    /// The request that reads this partition beyond the position reached.
    pub fn read_request(&self) -> (request: ReadRequest)
        ensures
            request.key@ == self.key(),
            request.after == self.position(),
    {
        ReadRequest { key: self.stream_key.clone(), after: self.cursor }
    }

    /// Takes what a read of the partition returned, oldest entry first, and
    /// hands out the events of the entries not read before, in their order.
    /// An entry at or behind the position reached is passed over. A partition
    /// without entries gives no events and is no error. If any fresh entry is
    /// malformed or does not decode, the whole read fails and the position
    /// stays where it was; otherwise the position moves to the latest entry.
    pub fn read_stream<F: Fn(&Vec<u8>) -> Option<AsyncEvent>>(
        &mut self,
        reply: Option<Vec<LogEntry>>,
        decode: F,
    ) -> (r: Result<Vec<AsyncEvent>, AppError>)
        requires
            total(decode),
        ensures
            final(self).key() == old(self).key(),
            match r {
                Ok(events) => hands_out(
                    decode,
                    reply,
                    old(self).position(),
                    final(self).position(),
                    events@,
                ),
                Err(e) => {
                    &&& final(self).position() == old(self).position()
                    &&& reply matches Some(entries)
                    &&& exists|at: int| #[trigger]
                        stops_at(decode, entries@, old(self).position(), at, e@)
                },
            },
    {
        match reply {
            None => Ok(Vec::new()),
            Some(entries) => match walk(&entries, self.cursor, &decode) {
                Ok((events, cursor)) => {
                    self.cursor = cursor;
                    Ok(events)
                },
                Err(e) => {
                    let ghost at = choose|at: int| #[trigger]
                        stops_at(decode, entries@, old(self).position(), at, e@);
                    let r: Result<Vec<AsyncEvent>, AppError> = Err(e);
                    assert(r matches Err(e) && stops_at(
                        decode,
                        entries@,
                        old(self).position(),
                        at,
                        e@,
                    ));
                    r
                },
            },
        }
    }

    /// The call on the store that persists the event.
    pub fn process_event(&self, event: AsyncEvent) -> (op: PersistenceOp)
        ensures
            op@ == store_call_of(event@),
    {
        match event {
            AsyncEvent::MarkAsSeen(ids) => PersistenceOp::MarkAsSeen(ids),
            AsyncEvent::Delete(ids) => PersistenceOp::DeleteMessages(ids),
            AsyncEvent::Send(message) => PersistenceOp::InsertMessage(message),
            AsyncEvent::Update(message) => PersistenceOp::UpdateMessage {
                id: message.id,
                content: message.content,
            },
        }
    }
}

/// The entry holds what an append with the given fields put into the log.
pub open spec fn stored_as(entry: LogEntry, fields: Seq<(&'static str, Vec<u8>)>) -> bool {
    &&& entry.fields@.len() == fields.len()
    &&& forall|j: int|
        0 <= j < fields.len() ==> (#[trigger] entry.fields@[j]).name@ == fields[j].0@
            && entry.fields@[j].value == EntryValue::Data(fields[j].1)
}

/// The fields are those of an append of the given encoded event.
pub open spec fn carries(fields: Seq<(&'static str, Vec<u8>)>, payload: Vec<u8>) -> bool {
    fields.len() == 1 && fields[0].0@ == REDIS_ENTRY_VALUE@ && fields[0].1 == payload
}

/// An entry that an append put into the log holds the bytes that were
/// appended.
pub proof fn lemma_appended_entry_holds_payload(
    entry: LogEntry,
    fields: Seq<(&'static str, Vec<u8>)>,
    payload: Vec<u8>,
)
    requires
        carries(fields, payload),
        stored_as(entry, fields),
    ensures
        payload_of(entry) == Ok::<Vec<u8>, EntryFault>(payload),
{
    assert(entry.fields@[0].name@ == REDIS_ENTRY_VALUE@);
    assert(field_index(entry.fields@, REDIS_ENTRY_VALUE@) == 0);
}

/// Appending events to an empty partition and reading it from the start
/// hands out one event per append, in the order of the appends: the event
/// at each place is what the decoder made of the bytes appended at that
/// place, and the reader ends at the last entry.
pub proof fn lemma_appends_read_back_in_order<F: Fn(&Vec<u8>) -> Option<AsyncEvent>>(
    decode: F,
    payloads: Seq<Vec<u8>>,
    appends: Seq<Seq<(&'static str, Vec<u8>)>>,
    entries: Vec<LogEntry>,
    end: EntryId,
    events: Seq<AsyncEvent>,
)
    requires
        appends.len() == payloads.len(),
        entries@.len() == payloads.len(),
        forall|i: int| 0 <= i < payloads.len() ==> carries(#[trigger] appends[i], payloads[i]),
        forall|i: int| 0 <= i < payloads.len() ==> stored_as(#[trigger] entries@[i], appends[i]),
        rising_from(entries@, EntryId::start()),
        hands_out(decode, Some(entries), EntryId::start(), end, events),
    ensures
        events.len() == payloads.len(),
        forall|i: int|
            0 <= i < payloads.len() ==> call_ensures(
                decode,
                (&#[trigger] payloads[i],),
                Some(events[i]),
            ),
        payloads.len() > 0 ==> end == entries@.last().id,
        payloads.len() == 0 ==> end == EntryId::start(),
{
    lemma_rising_all_fresh(entries@, EntryId::start());
    assert forall|i: int| 0 <= i < payloads.len() implies call_ensures(
        decode,
        (&#[trigger] payloads[i],),
        Some(events[i]),
    ) by {
        lemma_appended_entry_holds_payload(entries@[i], appends[i], payloads[i]);
        assert(decodes(decode, entries@[i], events[i]));
    }
}

/// With a decoder that gives back every event that the encoder was given,
/// appending events to an empty partition and reading it from the start hands
/// out exactly the events that were appended, in the order of the appends.
pub proof fn lemma_appended_events_read_back<
    E: Fn(&AsyncEvent) -> Vec<u8>,
    F: Fn(&Vec<u8>) -> Option<AsyncEvent>,
>(
    encode: E,
    decode: F,
    written: Seq<AsyncEvent>,
    appends: Seq<Seq<(&'static str, Vec<u8>)>>,
    entries: Vec<LogEntry>,
    end: EntryId,
    events: Seq<AsyncEvent>,
)
    requires
        forall|event: AsyncEvent, bytes: Vec<u8>, back: Option<AsyncEvent>|
            #[trigger] call_ensures(encode, (&event,), bytes) && #[trigger] call_ensures(
                decode,
                (&bytes,),
                back,
            ) ==> (back matches Some(e) && e@ == event@),
        appends.len() == written.len(),
        entries@.len() == written.len(),
        forall|i: int|
            0 <= i < written.len() ==> (#[trigger] appends[i]).len() == 1 && appends[i][0].0@
                == REDIS_ENTRY_VALUE@ && call_ensures(encode, (&written[i],), appends[i][0].1),
        forall|i: int| 0 <= i < written.len() ==> stored_as(#[trigger] entries@[i], appends[i]),
        rising_from(entries@, EntryId::start()),
        hands_out(decode, Some(entries), EntryId::start(), end, events),
    ensures
        events.len() == written.len(),
        forall|i: int| 0 <= i < written.len() ==> (#[trigger] events[i])@ == written[i]@,
{
    let payloads = Seq::new(written.len(), |i: int| appends[i][0].1);
    assert forall|i: int| 0 <= i < payloads.len() implies carries(
        #[trigger] appends[i],
        payloads[i],
    ) by {}
    lemma_appends_read_back_in_order(decode, payloads, appends, entries, end, events);
    assert forall|i: int| 0 <= i < written.len() implies (#[trigger] events[i])@
        == written[i]@ by {
        assert(call_ensures(decode, (&payloads[i],), Some(events[i])));
        assert(call_ensures(encode, (&written[i],), payloads[i]));
    }
}

/// A read of appended entries can only fail where the decoder refuses the
/// bytes that were appended.
pub proof fn lemma_appends_fail_only_in_decoding<F: Fn(&Vec<u8>) -> Option<AsyncEvent>>(
    decode: F,
    payloads: Seq<Vec<u8>>,
    appends: Seq<Seq<(&'static str, Vec<u8>)>>,
    entries: Seq<LogEntry>,
    cursor: EntryId,
    at: int,
    error: AppErrorView,
)
    requires
        appends.len() == payloads.len(),
        entries.len() == payloads.len(),
        forall|i: int| 0 <= i < payloads.len() ==> carries(#[trigger] appends[i], payloads[i]),
        forall|i: int| 0 <= i < payloads.len() ==> stored_as(#[trigger] entries[i], appends[i]),
        stops_at(decode, entries, cursor, at, error),
    ensures
        error == decode_fault(),
        call_ensures(decode, (&payloads[at],), None::<AsyncEvent>),
{
    lemma_appended_entry_holds_payload(entries[at], appends[at], payloads[at]);
}

/// What a read has handed out is not handed out again: a second read of the
/// same entries, from where the first one ended, hands out nothing, stays in
/// place and cannot fail.
pub proof fn lemma_read_twice_hands_out_nothing<F: Fn(&Vec<u8>) -> Option<AsyncEvent>>(
    decode: F,
    entries: Vec<LogEntry>,
    start: EntryId,
    end: EntryId,
    events: Seq<AsyncEvent>,
)
    requires
        hands_out(decode, Some(entries), start, end, events),
    ensures
        fresh_entries(entries@, end) == Seq::<LogEntry>::empty(),
        cursor_after(entries@, end) == end,
        forall|again: Seq<AsyncEvent>, then: EntryId| #[trigger]
            hands_out(decode, Some(entries), end, then, again) ==> again.len() == 0 && then
                == end,
        forall|at: int, error: AppErrorView| !#[trigger] stops_at(decode, entries@, end, at, error),
{
    lemma_cursor_moves_forward(entries@, start);
    lemma_nothing_fresh_behind(entries@, end);
    assert forall|at: int, error: AppErrorView| !#[trigger] stops_at(
        decode,
        entries@,
        end,
        at,
        error,
    ) by {
        if 0 <= at < entries@.len() {
            let front = entries@.subrange(0, at);
            assert forall|i: int| 0 <= i < front.len() implies !end.precedes(
                #[trigger] front[i].id,
            ) by {
                assert(front[i] == entries@[i]);
            }
            lemma_nothing_fresh_behind(front, end);
            assert(!end.precedes(entries@[at].id));
        }
    }
}

/// Every entry that a read hands out lies beyond the position at which the
/// read began and not beyond the position at which it ends.
pub proof fn lemma_fresh_entries_lie_ahead(entries: Seq<LogEntry>, cursor: EntryId)
    ensures
        forall|n: int|
            0 <= n < fresh_entries(entries, cursor).len() ==> cursor.precedes(
                (#[trigger] fresh_entries(entries, cursor)[n]).id,
            ) && !cursor_after(entries, cursor).precedes(fresh_entries(entries, cursor)[n].id),
    decreases entries.len(),
{
    if entries.len() > 0 {
        let front = entries.drop_last();
        lemma_fresh_entries_lie_ahead(front, cursor);
        lemma_cursor_moves_forward(front, cursor);
        lemma_cursor_moves_forward(entries, cursor);
        let before = cursor_after(front, cursor);
        assert forall|n: int| 0 <= n < fresh_entries(entries, cursor).len() implies cursor.precedes(
            (#[trigger] fresh_entries(entries, cursor)[n]).id,
        ) && !cursor_after(entries, cursor).precedes(fresh_entries(entries, cursor)[n].id) by {
            if n < fresh_entries(front, cursor).len() {
                assert(fresh_entries(entries, cursor)[n] == fresh_entries(front, cursor)[n]);
            } else {
                assert(fresh_entries(entries, cursor)[n] == entries.last());
            }
        }
    }
}

} // verus!
