use console_aggregator::aggregator::Aggregator;
use console_aggregator::entity::AsyncOpStats;
use console_aggregator::entity::Closable;
use console_aggregator::entity::Task;
use console_aggregator::entity::TaskStats;
use console_aggregator::event::Event;
use console_aggregator::retention::drop_closed;
use console_aggregator::retention::drop_missing;
use console_aggregator::retention::is_droppable;
use console_aggregator::table::IdData;
use console_aggregator::time::Duration;
use console_aggregator::time::Timestamp;
use console_aggregator::watch::Watch;
use console_aggregator::wire::InstrumentUpdate;

const SECOND: u128 = 1_000_000_000;

fn time(nanos: u128) -> Timestamp {
    Timestamp::from_nanos(nanos)
}

fn put(agg: &mut Aggregator, event: Event) {
    assert!(agg.can_apply(&event));
    agg.update_state(event);
}

#[test]
fn retention_reclaims_closed_rows() {
    let mut agg = Aggregator::new(Duration::from_nanos(SECOND), Duration::from_nanos(10 * SECOND));
    put(&mut agg, Event::Spawn { id: 1, metadata: 1, at: time(0), fields: Vec::new() });
    put(&mut agg, Event::Close { id: 1, at: time(1) });
    agg.cleanup_closed(time(5 * SECOND));
    assert!(agg.tasks.get(1).is_some());
    assert!(agg.task_stats.get(1).is_some());
    agg.cleanup_closed(time(11 * SECOND));
    assert!(agg.tasks.get(1).is_none());
    assert!(agg.task_stats.get(1).is_none());
}

#[test]
fn retention_is_a_strict_bound() {
    let retention = Duration::from_nanos(10);
    assert!(!is_droppable(&Some(time(5)), true, time(15), retention, false));
    assert!(is_droppable(&Some(time(5)), true, time(16), retention, false));
    assert!(!is_droppable(&Some(time(5)), false, time(15), retention, false));
    assert!(!is_droppable(&Some(time(20)), true, time(15), retention, true));
}

#[test]
fn open_rows_are_never_dropped() {
    let retention = Duration::from_nanos(10);
    assert!(!is_droppable(&None, false, time(1_000), retention, true));
    assert!(!is_droppable(&None, true, time(1_000), retention, false));
}

#[test]
fn clean_closed_rows_go_at_once_when_someone_watches() {
    let retention = Duration::from_nanos(10);
    assert!(is_droppable(&Some(time(5)), false, time(6), retention, true));
    assert!(!is_droppable(&Some(time(5)), true, time(6), retention, true));
    assert!(is_droppable(&Some(time(5)), true, time(16), retention, true));
}

#[test]
fn dirty_closed_rows_wait_for_a_publish() {
    let mut agg = Aggregator::new(Duration::from_nanos(SECOND), Duration::from_nanos(10 * SECOND));
    let (tx, mut rx) = tokio::sync::mpsc::channel::<InstrumentUpdate>(8);
    agg.add_instrument_subscription(Watch(tx), time(0));
    assert!(rx.try_recv().is_ok());
    put(&mut agg, Event::Spawn { id: 1, metadata: 1, at: time(0), fields: Vec::new() });
    put(&mut agg, Event::Spawn { id: 2, metadata: 1, at: time(0), fields: Vec::new() });
    put(&mut agg, Event::Close { id: 1, at: time(1) });
    assert!(!agg.finish_iteration(false, time(2)));
    assert!(agg.task_stats.get(1).is_some());
    assert!(agg.finish_iteration(true, time(3)));
    assert!(agg.task_stats.get(1).is_none());
    assert!(agg.tasks.get(1).is_none());
    assert!(agg.task_stats.get(2).is_some());
    assert!(agg.tasks.get(2).is_some());
    let update = rx.try_recv().unwrap();
    assert_eq!(
        update.task_update.stats_update[&1].total_time,
        Some(Duration::from_nanos(1))
    );
}

#[test]
fn drop_closed_drops_identity_rows_without_stats() {
    let mut entities: IdData<Task> = IdData::new();
    let mut stats: IdData<TaskStats> = IdData::new();
    for id in [1u64, 2, 3] {
        entities.insert(id, Task { id, metadata: 0, fields: Vec::new() });
    }
    entities.insert(9, Task { id: 9, metadata: 0, fields: Vec::new() });
    let mut closed_long_ago = TaskStats::spawned(time(0));
    closed_long_ago.closed_at = Some(time(10));
    let mut closed_lately = TaskStats::spawned(time(0));
    closed_lately.closed_at = Some(time(95));
    stats.insert(1, closed_long_ago);
    stats.insert(2, closed_lately);
    stats.insert(3, TaskStats::spawned(time(0)));
    stats.insert(4, TaskStats::spawned(time(0)));

    drop_closed(time(100), &mut entities, &mut stats, Duration::from_nanos(50), false);
    let mut left = stats.all();
    left.sort();
    assert_eq!(left, vec![2, 3, 4]);
    let mut left = entities.all();
    left.sort();
    assert_eq!(left, vec![2, 3]);
    assert!(stats.is_dirty(2));
}

#[test]
fn drop_missing_keeps_rows_with_a_counterpart() {
    let mut table: IdData<AsyncOpStats> = IdData::new();
    let mut keep: IdData<AsyncOpStats> = IdData::new();
    table.insert(1, AsyncOpStats::default());
    table.insert(2, AsyncOpStats::default());
    keep.insert(2, AsyncOpStats::default());
    keep.insert(3, AsyncOpStats::default());
    drop_missing(&mut table, &keep);
    assert_eq!(table.all(), vec![2]);
    assert_eq!(keep.len(), 2);
}

#[test]
fn closed_at_reads_the_field() {
    let mut stats = AsyncOpStats::default();
    assert_eq!(*stats.closed_at(), None);
    stats.closed_at = Some(time(4));
    assert_eq!(*stats.closed_at(), Some(time(4)));
    let mut task = TaskStats::default();
    task.closed_at = Some(time(5));
    assert_eq!(*task.closed_at(), Some(time(5)));
}

#[test]
fn resources_and_async_ops_are_reclaimed_too() {
    let mut agg = Aggregator::new(Duration::from_nanos(1), Duration::from_nanos(10));
    put(
        &mut agg,
        Event::Resource {
            id: 1,
            metadata: 1,
            kind: String::from("Timer"),
            concrete_type: String::from("Sleep"),
            at: time(0),
        },
    );
    put(
        &mut agg,
        Event::AsyncResourceOp { id: 2, source: String::from("s"), metadata: 1, at: time(0) },
    );
    put(&mut agg, Event::Close { id: 1, at: time(5) });
    put(&mut agg, Event::Close { id: 2, at: time(5) });
    agg.cleanup_closed(time(15));
    assert_eq!(agg.resources.len(), 1);
    assert_eq!(agg.async_op_stats.len(), 1);
    agg.cleanup_closed(time(16));
    assert_eq!(agg.resources.len(), 0);
    assert_eq!(agg.resource_stats.len(), 0);
    assert_eq!(agg.async_ops.len(), 0);
    assert_eq!(agg.async_op_stats.len(), 0);
}
