//! The events that clients exchange.

use crate::graphql::user::schema::{User, UserView};
use crate::instant::Timestamp;
use vstd::prelude::*;

verus! {

/// How far a message has got.
#[derive(Clone, Copy, Debug, PartialEq, Eq, Structural)]
pub enum MessageStatus {
    NotSent,
    Sent,
    Seen,
}

impl MessageStatus {
    /// The number that stands for a status where it is stored.
    pub open spec fn spec_code(self) -> u8 {
        match self {
            MessageStatus::NotSent => 1,
            MessageStatus::Sent => 2,
            MessageStatus::Seen => 3,
        }
    }

    /// The number that stands for this status where it is stored.
    #[verifier::when_used_as_spec(spec_code)]
    pub fn code(self) -> (c: u8)
        ensures
            c == self.spec_code(),
    {
        match self {
            MessageStatus::NotSent => 1,
            MessageStatus::Sent => 2,
            MessageStatus::Seen => 3,
        }
    }

    /// The status that a stored number stands for, if any.
    pub fn from_code(c: u8) -> (s: Option<MessageStatus>)
        ensures
            match s {
                Some(status) => status.spec_code() == c,
                None => c < 1 || c > 3,
            },
    {
        if c == 1 {
            Some(MessageStatus::NotSent)
        } else if c == 2 {
            Some(MessageStatus::Sent)
        } else if c == 3 {
            Some(MessageStatus::Seen)
        } else {
            None
        }
    }
}

impl Default for MessageStatus {
    fn default() -> (s: Self)
        ensures
            s == MessageStatus::NotSent,
    {
        MessageStatus::NotSent
    }
}

/// A chat message: its identifier, its text, who wrote it, the room it was
/// sent to, how far it has got, and when it was written.
#[derive(Debug, PartialEq, Eq)]
pub struct SocketMessageContent {
    pub id: u128,
    pub content: String,
    pub author: User,
    pub room: u128,
    pub status: MessageStatus,
    pub created_at: Timestamp,
}

/// The mathematical value of a [`SocketMessageContent`].
pub struct ContentView {
    pub id: u128,
    pub content: Seq<char>,
    pub author: UserView,
    pub room: u128,
    pub status: MessageStatus,
    pub created_at: Timestamp,
}

impl View for SocketMessageContent {
    type V = ContentView;

    open spec fn view(&self) -> ContentView {
        ContentView {
            id: self.id,
            content: self.content@,
            author: self.author@,
            room: self.room,
            status: self.status,
            created_at: self.created_at,
        }
    }
}

impl Clone for SocketMessageContent {
    fn clone(&self) -> (copy: Self)
        ensures
            copy@ == self@,
    {
        SocketMessageContent {
            id: self.id,
            content: self.content.clone(),
            author: self.author.clone(),
            room: self.room,
            status: self.status,
            created_at: self.created_at,
        }
    }
}

/// Copies a list of message identifiers.
pub fn copy_ids(ids: &Vec<u128>) -> (copy: Vec<u128>)
    ensures
        copy@ == ids@,
{
    let mut copy: Vec<u128> = Vec::new();
    let mut i: usize = 0;
    while i < ids.len()
        invariant
            i <= ids.len(),
            copy@ == ids@.subrange(0, i as int),
        decreases ids.len() - i,
    {
        copy.push(ids[i]);
        i += 1;
    }
    copy
}

/// An event on the wire between a client and the relay.
#[derive(Debug, PartialEq, Eq)]
pub enum SocketMessage {
    Send(SocketMessageContent),
    Update(SocketMessageContent),
    Delete(Vec<u128>),
    Seen(Vec<u128>),
    Typing,
    Ping,
    Pong,
    Close,
}

/// The mathematical value of a [`SocketMessage`].
pub enum WireEvent {
    Send(ContentView),
    Update(ContentView),
    Delete(Seq<u128>),
    Seen(Seq<u128>),
    Typing,
    Ping,
    Pong,
    Close,
}

impl View for SocketMessage {
    type V = WireEvent;

    open spec fn view(&self) -> WireEvent {
        match self {
            SocketMessage::Send(content) => WireEvent::Send(content@),
            SocketMessage::Update(content) => WireEvent::Update(content@),
            SocketMessage::Delete(ids) => WireEvent::Delete(ids@),
            SocketMessage::Seen(ids) => WireEvent::Seen(ids@),
            SocketMessage::Typing => WireEvent::Typing,
            SocketMessage::Ping => WireEvent::Ping,
            SocketMessage::Pong => WireEvent::Pong,
            SocketMessage::Close => WireEvent::Close,
        }
    }
}

impl Clone for SocketMessage {
    fn clone(&self) -> (copy: Self)
        ensures
            copy@ == self@,
    {
        match self {
            SocketMessage::Send(content) => SocketMessage::Send(content.clone()),
            SocketMessage::Update(content) => SocketMessage::Update(content.clone()),
            SocketMessage::Delete(ids) => SocketMessage::Delete(copy_ids(ids)),
            SocketMessage::Seen(ids) => SocketMessage::Seen(copy_ids(ids)),
            SocketMessage::Typing => SocketMessage::Typing,
            SocketMessage::Ping => SocketMessage::Ping,
            SocketMessage::Pong => SocketMessage::Pong,
            SocketMessage::Close => SocketMessage::Close,
        }
    }
}

} // verus!
