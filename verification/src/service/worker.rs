//! The workers that drain the event log into the store, one per partition.

use crate::configuration::RedisWorkerConfig;
use crate::service::entry::{EntryId, LogEntry};
use crate::service::stream::{
    hands_out,
    lemma_read_twice_hands_out_nothing,
    stops_at,
    store_call_of,
    total,
    AsyncEvent,
    EventRedisStream,
    PersistenceOp,
    ReadRequest,
};
use vstd::prelude::*;

verus! {

/// The calls on the store are those that persist the events, one for one and
/// in their order.
pub open spec fn persists(ops: Seq<PersistenceOp>, events: Seq<AsyncEvent>) -> bool {
    &&& ops.len() == events.len()
    &&& forall|n: int| 0 <= n < ops.len() ==> (#[trigger] ops[n])@ == store_call_of(events[n]@)
}

/// What one tick of a worker may do with what a read of its partition
/// returned: persist the events that the read hands out and move on, or,
/// where the read fails, do nothing and stay in place.
pub open spec fn ticks<F: Fn(&Vec<u8>) -> Option<AsyncEvent>>(
    decode: F,
    reply: Option<Vec<LogEntry>>,
    start: EntryId,
    end: EntryId,
    ops: Seq<PersistenceOp>,
) -> bool {
    ||| exists|events: Seq<AsyncEvent>|
        #[trigger] hands_out(decode, reply, start, end, events) && persists(ops, events)
    ||| {
        &&& ops.len() == 0
        &&& end == start
        &&& reply matches Some(entries)
        &&& exists|at: int, error: crate::errors::AppErrorView| #[trigger]
            stops_at(decode, entries@, start, at, error)
    }
}

/// The worker of one partition: the stream it reads and the seconds between
/// two reads.
#[derive(Debug)]
pub struct WorkerTask {
    stream: EventRedisStream,
    interval: u64,
}

impl WorkerTask {
    /// The name of the partition.
    pub closed spec fn key(&self) -> Seq<char> {
        self.stream.key()
    }

    /// The position up to which the partition has been drained.
    pub closed spec fn position(&self) -> EntryId {
        self.stream.position()
    }

    /// The seconds between two reads.
    pub closed spec fn period(&self) -> u64 {
        self.interval
    }

    /// The seconds between two reads.
    pub fn interval(&self) -> (secs: u64)
        ensures
            secs == self.period(),
    {
        self.interval
    }

    /// The stream that this worker drains.
    pub fn stream(&self) -> (stream: &EventRedisStream)
        ensures
            stream.key() == self.key(),
            stream.position() == self.position(),
    {
        &self.stream
    }

    /// The read with which the next tick begins.
    pub fn read_request(&self) -> (request: ReadRequest)
        ensures
            request.key@ == self.key(),
            request.after == self.position(),
    {
        self.stream.read_request()
    }

    /// The calls on the store that persist the events, one for one and in
    /// their order.
    pub fn plan(&self, events: Vec<AsyncEvent>) -> (ops: Vec<PersistenceOp>)
        ensures
            persists(ops@, events@),
    {
        let mut ops: Vec<PersistenceOp> = Vec::new();
        for event in it: events
            invariant
                it.seq() == events@,
                ops@.len() == it.index(),
                forall|n: int| 0 <= n < ops@.len() ==> (#[trigger] ops@[n])@ == store_call_of(events@[n]@),
        {
            ops.push(self.stream.process_event(event));
        }
        ops
    }

    /// One tick: takes what the read of the partition returned and gives the
    /// calls to make on the store, one per event handed out, in their order.
    /// A read that fails is passed over: nothing is called and the position
    /// stays.
    pub fn tick<F: Fn(&Vec<u8>) -> Option<AsyncEvent>>(
        &mut self,
        reply: Option<Vec<LogEntry>>,
        decode: F,
    ) -> (ops: Vec<PersistenceOp>)
        requires
            total(decode),
        ensures
            final(self).key() == old(self).key(),
            final(self).period() == old(self).period(),
            ticks(decode, reply, old(self).position(), final(self).position(), ops@),
    {
        match self.stream.read_stream(reply, decode) {
            Ok(events) => {
                let ops = self.plan(events);
                assert(hands_out(decode, reply, old(self).position(), self.position(), events@));
                ops
            },
            Err(e) => {
                let ghost at = choose|at: int| #[trigger]
                    stops_at(decode, reply->0@, old(self).position(), at, e@);
                assert(stops_at(decode, reply->0@, old(self).position(), at, e@));
                Vec::new()
            },
        }
    }
}

/// The workers of the relay, before they are started.
pub struct RedisWorker {
    config: RedisWorkerConfig,
}

impl RedisWorker {
    /// The configuration that the workers are made from.
    pub closed spec fn settings(&self) -> RedisWorkerConfig {
        self.config
    }

    /// The workers that the configuration asks for.
    pub fn new(config: RedisWorkerConfig) -> (worker: Self)
        ensures
            worker.settings() == config,
    {
        RedisWorker { config }
    }

    /// One worker per configured partition, in the order of the
    /// configuration. Each starts before the first entry of its partition
    /// and polls at the configured interval.
    pub fn spawn_worker(self) -> (tasks: Vec<WorkerTask>)
        ensures
            tasks@.len() == self.settings().task_config@.len(),
            forall|n: int|
                0 <= n < tasks@.len() ==> {
                    &&& (#[trigger] tasks@[n]).key() == self.settings().task_config@[n].key@
                    &&& tasks@[n].period() == self.settings().task_config@[n].interval
                    &&& tasks@[n].position() == EntryId::start()
                },
    {
        let mut tasks: Vec<WorkerTask> = Vec::new();
        let mut i: usize = 0;
        while i < self.config.task_config.len()
            invariant
                i <= self.config.task_config.len(),
                tasks@.len() == i,
                forall|n: int|
                    0 <= n < tasks@.len() ==> {
                        &&& (#[trigger] tasks@[n]).key() == self.config.task_config@[n].key@
                        &&& tasks@[n].period() == self.config.task_config@[n].interval
                        &&& tasks@[n].position() == EntryId::start()
                    },
            decreases self.config.task_config.len() - i,
        {
            let entry = &self.config.task_config[i];
            tasks.push(
                WorkerTask {
                    stream: EventRedisStream::new(entry.key.as_str()),
                    interval: entry.interval,
                },
            );
            i += 1;
        }
        tasks
    }
}

/// A tick over entries that an earlier tick has drained calls nothing on the
/// store and leaves the worker where it is: whatever the store does with a
/// call, no entry makes the worker call it twice.
pub proof fn lemma_drained_entries_are_not_persisted_again<F: Fn(&Vec<u8>) -> Option<AsyncEvent>>(
    decode: F,
    entries: Vec<LogEntry>,
    start: EntryId,
    drained: EntryId,
    events: Seq<AsyncEvent>,
    end: EntryId,
    ops: Seq<PersistenceOp>,
)
    requires
        hands_out(decode, Some(entries), start, drained, events),
        ticks(decode, Some(entries), drained, end, ops),
    ensures
        ops.len() == 0,
        end == drained,
{
    lemma_read_twice_hands_out_nothing(decode, entries, start, drained, events);
}

} // verus!
