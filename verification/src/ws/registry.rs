//! The registry of rooms: for each room that anyone has joined, the channel
//! on which its events are fanned out.

use std::collections::HashMap;
use tokio::sync::broadcast::Sender;
use vstd::prelude::*;

verus! {

broadcast use vstd::std_specs::hash::group_hash_axioms;

/// The sending half of a broadcast channel of `tokio`. Nothing of its inside
/// is known here; two handles are equal when they are handles of one channel.
#[verifier::external_type_specification]
#[verifier::external_body]
#[verifier::reject_recursive_types(T)]
pub struct ExSender<T>(Sender<T>);

/// The number of pending messages that a room's channel keeps for each
/// subscriber, unless another bound is asked for.
pub const CHANNEL_CAPACITY: usize = 100;

/// The largest bound that a channel can be made with.
pub const MAX_CHANNEL_CAPACITY: usize = usize::MAX / 2;

/// The number of pending messages per subscriber that a channel was made
/// for.
pub uninterp spec fn channel_bound(tx: Sender<Vec<u8>>) -> nat;

/// `tokio::sync::broadcast::channel`, of which the sending half is kept. It
/// panics for a capacity of zero or above half of `usize::MAX`, which the
/// precondition leaves out. The contract records the capacity that the
/// channel was made for and claims nothing else of it.
#[verifier::external_body]
fn open_channel(capacity: usize) -> (tx: Sender<Vec<u8>>)
    requires
        0 < capacity <= MAX_CHANNEL_CAPACITY,
    ensures
        channel_bound(tx) == capacity,
{
    let (tx, _rx) = tokio::sync::broadcast::channel(capacity);
    tx
}

/// `Sender::clone`: another handle of the same channel.
#[verifier::external_body]
fn share(tx: &Sender<Vec<u8>>) -> (handle: Sender<Vec<u8>>)
    ensures
        handle == *tx,
{
    tx.clone()
}

/// The rooms after a join of `room`, where `channel` is the handle that the
/// join returned: a room that was there keeps its channel, a new room gets
/// the channel.
pub open spec fn joined(
    rooms: Map<u128, Sender<Vec<u8>>>,
    room: u128,
    channel: Sender<Vec<u8>>,
) -> Map<u128, Sender<Vec<u8>>> {
    if rooms.contains_key(room) {
        rooms
    } else {
        rooms.insert(room, channel)
    }
}

/// The registry of rooms. A room enters it on the first join and never
/// leaves; it has one channel for as long as the registry lives, made for
/// the bound of the registry.
pub struct Registry {
    chats: HashMap<u128, Sender<Vec<u8>>>,
    capacity: usize,
}

impl View for Registry {
    type V = Map<u128, Sender<Vec<u8>>>;

    closed spec fn view(&self) -> Map<u128, Sender<Vec<u8>>> {
        self.chats@
    }
}

impl Registry {
    /// The registry is well formed: channels can be made with its bound, and
    /// the channel of every room was made with it.
    pub closed spec fn wf(&self) -> bool {
        &&& 0 < self.capacity <= MAX_CHANNEL_CAPACITY
        &&& forall|room: u128| #[trigger]
            self.chats@.contains_key(room) ==> channel_bound(self.chats@[room]) == self.capacity
    }

    /// The bound with which the channels of new rooms are made.
    pub closed spec fn bound(&self) -> usize {
        self.capacity
    }

    /// A registry without rooms, whose channels keep 100 pending messages
    /// per subscriber.
    pub fn new() -> (registry: Self)
        ensures
            registry.wf(),
            registry@ == Map::<u128, Sender<Vec<u8>>>::empty(),
            registry.bound() == CHANNEL_CAPACITY,
    {
        Registry { chats: HashMap::new(), capacity: CHANNEL_CAPACITY }
    }

    /// A registry without rooms, whose channels keep the given number of
    /// pending messages per subscriber. There is none for a bound of zero or
    /// above half of `usize::MAX`.
    pub fn with_capacity(capacity: usize) -> (registry: Option<Self>)
        ensures
            match registry {
                Some(r) => 0 < capacity <= MAX_CHANNEL_CAPACITY && r.wf() && r@ == Map::<
                    u128,
                    Sender<Vec<u8>>,
                >::empty() && r.bound() == capacity,
                None => capacity == 0 || capacity > MAX_CHANNEL_CAPACITY,
            },
    {
        if capacity == 0 || capacity > MAX_CHANNEL_CAPACITY {
            None
        } else {
            Some(Registry { chats: HashMap::new(), capacity })
        }
    }

    /// The number of rooms.
    pub fn len(&self) -> (n: usize)
        ensures
            n == self@.len(),
    {
        self.chats.len()
    }

    /// Whether the room has a channel.
    pub fn contains(&self, room: u128) -> (known: bool)
        ensures
            known == self@.contains_key(room),
    {
        self.chats.contains_key(&room)
    }

    /// A handle of the channel of the room. On the first join of a room its
    /// channel is made with the bound of the registry and kept; every later
    /// join returns a handle of that same channel. No other room is touched.
    pub fn resolve_or_create(&mut self, room: u128) -> (channel: Sender<Vec<u8>>)
        requires
            old(self).wf(),
        ensures
            final(self).wf(),
            final(self)@ == joined(old(self)@, room, channel),
            final(self)@.contains_key(room),
            final(self)@[room] == channel,
            final(self).bound() == old(self).bound(),
            channel_bound(channel) == final(self).bound(),
    {
        match self.chats.get(&room) {
            Some(chat) => share(chat),
            None => {
                let tx = open_channel(self.capacity);
                self.chats.insert(room, share(&tx));
                tx
            },
        }
    }
}

/// The first join of a room makes its channel, and every later join returns
/// that channel: after two joins of one room, whatever the registry held
/// before, both hold the same channel and the room was entered once.
pub proof fn lemma_one_channel_per_room(
    rooms: Map<u128, Sender<Vec<u8>>>,
    room: u128,
    first: Sender<Vec<u8>>,
    second: Sender<Vec<u8>>,
)
    requires
        joined(rooms, room, first)[room] == first,
        joined(joined(rooms, room, first), room, second)[room] == second,
    ensures
        first == second,
        joined(joined(rooms, room, first), room, second) == joined(rooms, room, first),
        joined(rooms, room, first).dom() == rooms.dom().insert(room),
{
    assert(joined(rooms, room, first).dom() =~= rooms.dom().insert(room));
}

/// A join of one room leaves every other room with the channel it had.
pub proof fn lemma_join_keeps_other_rooms(
    rooms: Map<u128, Sender<Vec<u8>>>,
    room: u128,
    channel: Sender<Vec<u8>>,
    other: u128,
)
    requires
        other != room,
    ensures
        joined(rooms, room, channel).contains_key(other) == rooms.contains_key(other),
        rooms.contains_key(other) ==> joined(rooms, room, channel)[other] == rooms[other],
{
}

} // verus!
