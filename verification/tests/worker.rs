use fast_chat::configuration::{RedisEventConfig, RedisWorkerConfig};
use fast_chat::service::entry::{EntryField, EntryId, EntryValue, LogEntry};
use fast_chat::service::stream::{AsyncEvent, PersistenceOp};
use fast_chat::service::worker::RedisWorker;

fn decode(bytes: &Vec<u8>) -> Option<AsyncEvent> {
    match bytes.as_slice() {
        [3, ids @ ..] => Some(AsyncEvent::Delete(ids.iter().map(|b| *b as u128).collect())),
        [4, ids @ ..] => Some(AsyncEvent::MarkAsSeen(ids.iter().map(|b| *b as u128).collect())),
        _ => None,
    }
}

fn entry(ms: u64, payload: Vec<u8>) -> LogEntry {
    LogEntry {
        id: EntryId { ms, seq: 0 },
        fields: vec![EntryField { name: "value".to_string(), value: EntryValue::Data(payload) }],
    }
}

fn config() -> RedisWorkerConfig {
    RedisWorkerConfig {
        task_config: vec![
            RedisEventConfig { key: "ASYNC_EVENT_SEND".to_string(), interval: 5 },
            RedisEventConfig { key: "ASYNC_EVENT_DELETE".to_string(), interval: 60 },
        ],
    }
}

#[test]
fn one_worker_per_configured_partition() {
    let tasks = RedisWorker::new(config()).spawn_worker();
    assert_eq!(tasks.len(), 2);
    assert_eq!(tasks[0].stream().stream_key(), "ASYNC_EVENT_SEND");
    assert_eq!(tasks[0].interval(), 5);
    assert_eq!(tasks[1].stream().stream_key(), "ASYNC_EVENT_DELETE");
    assert_eq!(tasks[1].interval(), 60);
    assert_eq!(tasks[1].read_request().after, EntryId::start());
    assert_eq!(tasks[1].read_request().key, "ASYNC_EVENT_DELETE");
}

#[test]
fn no_configuration_no_workers() {
    let tasks = RedisWorker::new(RedisWorkerConfig { task_config: vec![] }).spawn_worker();
    assert!(tasks.is_empty());
}

#[test]
fn a_tick_persists_each_event_once_and_in_order() {
    let mut tasks = RedisWorker::new(config()).spawn_worker();
    let task = &mut tasks[1];
    let ops = task.tick(Some(vec![entry(1, vec![3, 7]), entry(2, vec![4, 8, 9])]), decode);
    assert_eq!(
        ops,
        vec![PersistenceOp::DeleteMessages(vec![7]), PersistenceOp::MarkAsSeen(vec![8, 9])]
    );
    assert_eq!(task.read_request().after, EntryId { ms: 2, seq: 0 });
}

#[test]
fn a_tick_over_drained_entries_calls_nothing() {
    let mut tasks = RedisWorker::new(config()).spawn_worker();
    let task = &mut tasks[0];
    let first = task.tick(Some(vec![entry(1, vec![3, 7])]), decode);
    assert_eq!(first.len(), 1);
    let second = task.tick(Some(vec![entry(1, vec![3, 7])]), decode);
    assert!(second.is_empty());
    let third = task.tick(Some(vec![entry(1, vec![3, 7]), entry(2, vec![3, 1])]), decode);
    assert_eq!(third, vec![PersistenceOp::DeleteMessages(vec![1])]);
}

#[test]
fn a_failed_read_skips_the_tick_and_keeps_the_position() {
    let mut tasks = RedisWorker::new(config()).spawn_worker();
    let task = &mut tasks[0];
    let ops = task.tick(Some(vec![entry(1, vec![3, 7]), entry(2, vec![0])]), decode);
    assert!(ops.is_empty());
    assert_eq!(task.read_request().after, EntryId::start());
    // Once the bad entry is gone, everything is persisted.
    let ops = task.tick(Some(vec![entry(1, vec![3, 7])]), decode);
    assert_eq!(ops, vec![PersistenceOp::DeleteMessages(vec![7])]);
}

#[test]
fn a_tick_over_an_empty_partition_calls_nothing() {
    let mut tasks = RedisWorker::new(config()).spawn_worker();
    assert!(tasks[0].tick(None, decode).is_empty());
    assert!(tasks[0].tick(Some(vec![]), decode).is_empty());
}

#[test]
fn a_plan_keeps_the_order_of_the_events() {
    let tasks = RedisWorker::new(config()).spawn_worker();
    let ops = tasks[0].plan(vec![AsyncEvent::MarkAsSeen(vec![1]), AsyncEvent::Delete(vec![2])]);
    assert_eq!(
        ops,
        vec![PersistenceOp::MarkAsSeen(vec![1]), PersistenceOp::DeleteMessages(vec![2])]
    );
}
