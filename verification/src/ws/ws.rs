//! Sessions: what the relay does with each frame that a client sends, with
//! each event that the room hands it, and how a session ends.

use crate::service::stream::{durable_of, AsyncEvent, DurableEvent};
use crate::ws::registry::Registry;
use crate::ws::schema::{SocketMessage, WireEvent};
use std::ops::ControlFlow;
use tokio::sync::broadcast::Sender;
use vstd::prelude::*;

verus! {

/// What the relay does with one inbound event: what it broadcasts to the
/// room, what it appends to the log, and whether the reader goes on.
#[derive(Debug, PartialEq, Eq)]
pub struct Dispatch {
    pub broadcast: Option<SocketMessage>,
    pub enqueue: Option<AsyncEvent>,
    pub flow: ControlFlow<(), ()>,
}

/// The mathematical value of a [`Dispatch`].
pub struct DispatchView {
    pub broadcast: Option<WireEvent>,
    pub enqueue: Option<DurableEvent>,
    pub stop: bool,
}

impl View for Dispatch {
    type V = DispatchView;

    open spec fn view(&self) -> DispatchView {
        DispatchView {
            broadcast: match self.broadcast {
                Some(event) => Some(event@),
                None => None,
            },
            enqueue: match self.enqueue {
                Some(event) => Some(event@),
                None => None,
            },
            stop: self.flow is Break,
        }
    }
}

/// The event that is broadcast to the room in answer to an inbound event. A
/// read receipt and a close are not broadcast; a ping is answered by a pong;
/// every other event is broadcast as it is.
pub open spec fn rebroadcast_of(event: WireEvent) -> Option<WireEvent> {
    match event {
        WireEvent::Send(content) => Some(WireEvent::Send(content)),
        WireEvent::Update(content) => Some(WireEvent::Update(content)),
        WireEvent::Delete(ids) => Some(WireEvent::Delete(ids)),
        WireEvent::Seen(_) => None,
        WireEvent::Typing => Some(WireEvent::Typing),
        WireEvent::Ping => Some(WireEvent::Pong),
        WireEvent::Pong => Some(WireEvent::Pong),
        WireEvent::Close => None,
    }
}

/// What the relay does with an inbound event.
pub open spec fn dispatch_of(event: WireEvent) -> DispatchView {
    DispatchView {
        broadcast: rebroadcast_of(event),
        enqueue: durable_of(event),
        stop: event is Close,
    }
}

/// Doing nothing and going on.
pub open spec fn idle() -> DispatchView {
    DispatchView { broadcast: None, enqueue: None, stop: false }
}

/// What the relay does with a frame, given what decoding made of it: a frame
/// that is no event is dropped.
pub open spec fn outcome_of(decoded: Option<SocketMessage>) -> DispatchView {
    match decoded {
        Some(event) => dispatch_of(event@),
        None => idle(),
    }
}

/// What the relay does with one inbound event.
pub fn dispatch(event: SocketMessage) -> (d: Dispatch)
    ensures
        d@ == dispatch_of(event@),
{
    let enqueue = AsyncEvent::from_wire(&event);
    match event {
        SocketMessage::Send(message) => Dispatch {
            broadcast: Some(SocketMessage::Send(message)),
            enqueue,
            flow: ControlFlow::Continue(()),
        },
        SocketMessage::Seen(_) => Dispatch {
            broadcast: None,
            enqueue,
            flow: ControlFlow::Continue(()),
        },
        SocketMessage::Update(message) => Dispatch {
            broadcast: Some(SocketMessage::Update(message)),
            enqueue,
            flow: ControlFlow::Continue(()),
        },
        SocketMessage::Delete(ids) => Dispatch {
            broadcast: Some(SocketMessage::Delete(ids)),
            enqueue,
            flow: ControlFlow::Continue(()),
        },
        SocketMessage::Pong => Dispatch {
            broadcast: Some(SocketMessage::Pong),
            enqueue,
            flow: ControlFlow::Continue(()),
        },
        SocketMessage::Ping => Dispatch {
            broadcast: Some(SocketMessage::Pong),
            enqueue,
            flow: ControlFlow::Continue(()),
        },
        SocketMessage::Typing => Dispatch {
            broadcast: Some(SocketMessage::Typing),
            enqueue,
            flow: ControlFlow::Continue(()),
        },
        SocketMessage::Close => Dispatch { broadcast: None, enqueue, flow: ControlFlow::Break(()) },
    }
}

/// What the relay does with one inbound frame: it decodes the frame and
/// dispatches the event; a frame that does not decode is dropped and the
/// session goes on.
pub fn process_message<D: FnOnce(&Vec<u8>) -> Option<SocketMessage>>(msg: Vec<u8>, decode: D) -> (d:
    Dispatch)
    requires
        call_requires(decode, (&msg,)),
    ensures
        exists|decoded: Option<SocketMessage>| #[trigger]
            call_ensures(decode, (&msg,), decoded) && d@ == outcome_of(decoded),
{
    let decoded = decode(&msg);
    let ghost seen = decoded;
    let d = match decoded {
        Some(event) => dispatch(event),
        None => Dispatch { broadcast: None, enqueue: None, flow: ControlFlow::Continue(()) },
    };
    assert(call_ensures(decode, (&msg,), seen) && d@ == outcome_of(seen));
    d
}

/// The two tasks of a session.
#[derive(Clone, Copy, Debug, PartialEq, Eq, Structural)]
pub enum SessionTask {
    /// Takes the frames that the client sends.
    Reader,
    /// Hands the events of the room to the client.
    Writer,
}

impl SessionTask {
    /// The other task of the session.
    pub open spec fn spec_other(self) -> SessionTask {
        match self {
            SessionTask::Reader => SessionTask::Writer,
            SessionTask::Writer => SessionTask::Reader,
        }
    }

    /// The other task of the session.
    #[verifier::when_used_as_spec(spec_other)]
    pub fn other(self) -> (task: SessionTask)
        ensures
            task == self.spec_other(),
    {
        match self {
            SessionTask::Reader => SessionTask::Writer,
            SessionTask::Writer => SessionTask::Reader,
        }
    }
}

/// What the channel of the room hands to the writer of a session.
#[derive(Debug, PartialEq, Eq)]
pub enum Received {
    /// The next event of the room, encoded.
    Payload(Vec<u8>),
    /// The session fell behind and this many events were dropped for it.
    Lagged(u64),
    /// The channel is closed.
    Closed,
}

/// What the writer of a session does next.
#[derive(Debug, PartialEq, Eq)]
pub enum WriterStep {
    /// Send these bytes to the client as one binary frame.
    Forward(Vec<u8>),
    /// Go on with the next event.
    Skip,
    /// End the session.
    Finish,
}

/// What the writer does with what the channel handed it. A session that fell
/// behind has lost the events dropped for it and goes on.
pub open spec fn writer_step_of(received: Received) -> WriterStep {
    match received {
        Received::Payload(bytes) => WriterStep::Forward(bytes),
        Received::Lagged(_) => WriterStep::Skip,
        Received::Closed => WriterStep::Finish,
    }
}

/// One connection, bound to the channel of one room. It is open until the
/// first of its two tasks finishes.
pub struct Session {
    room: u128,
    tx: Sender<Vec<u8>>,
    ended_by: Option<SessionTask>,
}

impl Session {
    /// The room of the session.
    pub closed spec fn room(&self) -> u128 {
        self.room
    }

    /// The channel of the room of the session.
    pub closed spec fn channel(&self) -> Sender<Vec<u8>> {
        self.tx
    }

    /// The task that ended the session, if it has ended.
    pub closed spec fn ended_by(&self) -> Option<SessionTask> {
        self.ended_by
    }

    /// Whether the session is open.
    pub open spec fn is_open(&self) -> bool {
        self.ended_by() is None
    }

    /// The room of the session.
    pub fn room_id(&self) -> (room: u128)
        ensures
            room == self.room(),
    {
        self.room
    }

    /// The channel of the room, to subscribe to and to publish on.
    pub fn sender(&self) -> (tx: &Sender<Vec<u8>>)
        ensures
            *tx == self.channel(),
    {
        &self.tx
    }

    /// Whether the session has not ended.
    pub fn open(&self) -> (open: bool)
        ensures
            open == self.is_open(),
    {
        self.ended_by.is_none()
    }

    /// What the reader does with what came from the client: a binary frame
    /// is processed as a message; anything else, and the end of the
    /// connection, ends the reader without any effect on the room or the log.
    pub fn read<D: FnOnce(&Vec<u8>) -> Option<SocketMessage>>(
        frame: Option<Vec<u8>>,
        decode: D,
    ) -> (d: Dispatch)
        requires
            frame matches Some(msg) ==> call_requires(decode, (&msg,)),
        ensures
            match frame {
                Some(msg) => exists|decoded: Option<SocketMessage>| #[trigger]
                    call_ensures(decode, (&msg,), decoded) && d@ == outcome_of(decoded),
                None => d@ == (DispatchView { broadcast: None, enqueue: None, stop: true }),
            },
    {
        match frame {
            Some(msg) => process_message(msg, decode),
            None => Dispatch { broadcast: None, enqueue: None, flow: ControlFlow::Break(()) },
        }
    }

    /// What the writer does with what the channel of the room handed it.
    pub fn write(received: Received) -> (step: WriterStep)
        ensures
            step == writer_step_of(received),
    {
        match received {
            Received::Payload(bytes) => WriterStep::Forward(bytes),
            Received::Lagged(_) => WriterStep::Skip,
            Received::Closed => WriterStep::Finish,
        }
    }

    /// Whether the writer goes on after it tried to send a frame: the first
    /// send that fails ends it.
    pub fn sent(delivered: bool) -> (flow: ControlFlow<(), ()>)
        ensures
            flow is Break <==> !delivered,
    {
        if delivered {
            ControlFlow::Continue(())
        } else {
            ControlFlow::Break(())
        }
    }

    /// Records that a task of the session has finished. The first task to
    /// finish ends the session, and the other task is returned to be
    /// cancelled; after that nothing changes and nothing is returned.
    pub fn finish(&mut self, task: SessionTask) -> (cancel: Option<SessionTask>)
        ensures
            final(self).room() == old(self).room(),
            final(self).channel() == old(self).channel(),
            !final(self).is_open(),
            old(self).is_open() ==> final(self).ended_by() == Some(task) && cancel == Some(
                task.other(),
            ),
            !old(self).is_open() ==> final(self).ended_by() == old(self).ended_by() && cancel
                is None,
    {
        if self.ended_by.is_none() {
            self.ended_by = Some(task);
            Some(task.other())
        } else {
            None
        }
    }
}

/// Binds a new connection to the room: resolves the channel of the room in
/// the registry, making it on the first join, and opens a session on it.
pub fn handle_socket(registry: &mut Registry, chat: u128) -> (session: Session)
    requires
        old(registry).wf(),
    ensures
        final(registry).wf(),
        final(registry)@ == crate::ws::registry::joined(old(registry)@, chat, session.channel()),
        final(registry)@.contains_key(chat),
        final(registry)@[chat] == session.channel(),
        final(registry).bound() == old(registry).bound(),
        crate::ws::registry::channel_bound(session.channel()) == final(registry).bound(),
        session.room() == chat,
        session.is_open(),
{
    let tx = registry.resolve_or_create(chat);
    Session { room: chat, tx, ended_by: None }
}

/// A message that a session sends is broadcast to its room as it is and is
/// appended to the log as the same message; so is an edit, and so is a
/// deletion.
pub proof fn lemma_messages_reach_room_and_log(event: WireEvent)
    requires
        event is Send || event is Update || event is Delete,
    ensures
        dispatch_of(event).broadcast == Some(event),
        dispatch_of(event).enqueue == durable_of(event),
        dispatch_of(event).enqueue is Some,
        !dispatch_of(event).stop,
{
}

/// A read receipt is never broadcast to the room; it is only appended to the
/// log.
pub proof fn lemma_seen_is_not_rebroadcast(ids: Seq<u128>)
    ensures
        dispatch_of(WireEvent::Seen(ids)).broadcast is None,
        dispatch_of(WireEvent::Seen(ids)).enqueue == Some(DurableEvent::MarkAsSeen(ids)),
        !dispatch_of(WireEvent::Seen(ids)).stop,
{
}

/// A ping is answered by exactly one pong, which is broadcast to the room,
/// and leaves nothing in the log.
pub proof fn lemma_ping_is_answered_by_pong()
    ensures
        dispatch_of(WireEvent::Ping).broadcast == Some(WireEvent::Pong),
        dispatch_of(WireEvent::Ping).enqueue is None,
        !dispatch_of(WireEvent::Ping).stop,
{
}

/// A close ends the session that received it and nothing else: the room
/// hears nothing of it and the log gets nothing. It is the only event that
/// ends a session.
pub proof fn lemma_close_ends_only_its_session(event: WireEvent)
    ensures
        dispatch_of(event).stop <==> event is Close,
        event is Close ==> dispatch_of(event).broadcast is None && dispatch_of(event).enqueue
            is None,
{
}

/// A frame that is no event leaves the session open, the room silent and the
/// log untouched.
pub proof fn lemma_unparsable_frame_is_dropped()
    ensures
        outcome_of(None).broadcast is None,
        outcome_of(None).enqueue is None,
        !outcome_of(None).stop,
{
}

/// Only messages, edits, deletions and read receipts are ever appended to the
/// log, each to the partition of its kind.
pub proof fn lemma_only_four_kinds_are_persisted(event: WireEvent)
    ensures
        dispatch_of(event).enqueue is Some <==> (event is Send || event is Update || event
            is Delete || event is Seen),
        event is Send ==> crate::service::stream::partition_of(dispatch_of(event).enqueue->0)
            == crate::service::stream::ASYNC_EVENT_SEND@,
        event is Update ==> crate::service::stream::partition_of(dispatch_of(event).enqueue->0)
            == crate::service::stream::ASYNC_EVENT_UPDATE@,
        event is Delete ==> crate::service::stream::partition_of(dispatch_of(event).enqueue->0)
            == crate::service::stream::ASYNC_EVENT_DELETE@,
        event is Seen ==> crate::service::stream::partition_of(dispatch_of(event).enqueue->0)
            == crate::service::stream::ASYNC_EVENT_MARK_AS_SEEN@,
{
}

} // verus!
