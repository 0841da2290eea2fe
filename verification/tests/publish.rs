use console_aggregator::aggregator::Aggregator;
use console_aggregator::aggregator::Step;
use console_aggregator::aggregator::Wake;
use console_aggregator::aggregator::WatchKind;
use console_aggregator::event::Event;
use console_aggregator::event::Level;
use console_aggregator::event::Metadata;
use console_aggregator::time::Duration;
use console_aggregator::time::Timestamp;
use console_aggregator::watch::Watch;
use console_aggregator::watch::WatchRequest;
use console_aggregator::watch::is_valid_buffer;
use console_aggregator::watch::open_stream;
use console_aggregator::wire::InstrumentUpdate;
use console_aggregator::wire::TaskDetails;
use console_aggregator::wire::TaskKind;
use hdrhistogram::Histogram;
use hdrhistogram::serialization::Deserializer;
use tokio::sync::mpsc::Receiver;
use tokio::sync::mpsc::channel;
use tokio::sync::oneshot;

fn ts(nanos: u128) -> Timestamp {
    Timestamp::from_nanos(nanos)
}

fn new_aggregator() -> Aggregator {
    Aggregator::new(Duration::from_nanos(1_000_000_000), Duration::from_nanos(60_000_000_000))
}

fn apply(agg: &mut Aggregator, event: Event) {
    assert!(agg.can_apply(&event));
    agg.update_state(event);
}

fn spawn_task(agg: &mut Aggregator, id: u64, nanos: u128) {
    apply(agg, Event::Spawn { id, metadata: 1, at: ts(nanos), fields: Vec::new() });
}

fn descriptor(id: u64, name: &str) -> Metadata {
    Metadata {
        id,
        name: String::from(name),
        target: String::from("runtime"),
        level: Level::Info,
        field_names: Vec::new(),
    }
}

fn subscribe(agg: &mut Aggregator, buffer: usize, now: u128) -> Receiver<InstrumentUpdate> {
    let (tx, rx) = channel(buffer);
    agg.add_instrument_subscription(Watch(tx), ts(now));
    rx
}

fn sorted_keys<V>(map: &std::collections::HashMap<u64, V>) -> Vec<u64> {
    let mut keys: Vec<u64> = map.keys().copied().collect();
    keys.sort();
    keys
}

#[test]
fn watch_update_queues_a_clone() {
    let (tx, mut rx) = channel::<u32>(2);
    let watch = Watch(tx);
    assert!(watch.update(&7));
    assert!(watch.update(&8));
    assert_eq!(rx.try_recv().ok(), Some(7));
    assert_eq!(rx.try_recv().ok(), Some(8));
    assert!(rx.try_recv().is_err());
}

#[test]
fn watch_update_fails_on_a_full_queue() {
    let (tx, mut rx) = channel::<u32>(1);
    let watch = Watch(tx);
    assert!(watch.update(&1));
    assert!(!watch.update(&2));
    assert_eq!(rx.try_recv().ok(), Some(1));
    assert!(watch.update(&3));
    assert_eq!(rx.try_recv().ok(), Some(3));
}

#[test]
fn watch_update_fails_on_a_closed_queue() {
    let (tx, rx) = channel::<u32>(1);
    drop(rx);
    assert!(!Watch(tx).update(&1));
}

fn details_request(id: u64, buffer: usize) -> (WatchRequest<TaskDetails>, oneshot::Receiver<Receiver<TaskDetails>>) {
    let (stream_sender, reply) = oneshot::channel();
    (WatchRequest { id, stream_sender, buffer }, reply)
}

#[test]
fn only_a_publish_tick_sends() {
    let (tx, _rx) = channel::<InstrumentUpdate>(1);
    assert!(Wake::PublishTick.should_send());
    assert!(!Wake::Flush.should_send());
    assert!(!Wake::Subscription(WatchKind::Instrument(Watch(tx))).should_send());
    assert!(!Wake::RpcsClosed.should_send());
}

#[test]
fn details_requests_need_a_buffer_that_can_be_made() {
    assert!(!is_valid_buffer(0));
    assert!(is_valid_buffer(1));
    assert!(is_valid_buffer(usize::MAX >> 3));
    assert!(!is_valid_buffer((usize::MAX >> 3) + 1));
    assert!(!is_valid_buffer(usize::MAX));
    let mut agg = new_aggregator();
    spawn_task(&mut agg, 1, 0);
    let (request, _reply) = details_request(1, 0);
    assert!(!agg.can_serve(&Wake::Subscription(WatchKind::TaskDetail(request))));
    let (request, _reply) = details_request(1, 4);
    assert!(agg.can_serve(&Wake::Subscription(WatchKind::TaskDetail(request))));
    assert!(!agg.can_serve_request(1, 0));
    assert!(agg.can_serve_request(1, 1));
    assert!(!agg.can_serve_request(1, usize::MAX));
    assert!(agg.can_serve(&Wake::PublishTick));
    assert!(agg.can_serve(&Wake::Flush));
    assert!(agg.can_serve(&Wake::RpcsClosed));
    let (tx, _rx) = channel::<InstrumentUpdate>(1);
    assert!(agg.can_serve(&Wake::Subscription(WatchKind::Instrument(Watch(tx)))));
}

#[test]
fn details_request_for_an_unknown_task_may_ask_for_any_buffer() {
    let mut agg = new_aggregator();
    spawn_task(&mut agg, 1, 0);
    for buffer in [0usize, usize::MAX] {
        assert!(agg.can_serve_request(2, buffer));
        let (request, mut reply) = details_request(2, buffer);
        let wake = Wake::Subscription(WatchKind::TaskDetail(request));
        assert!(agg.can_serve(&wake));
        assert_eq!(agg.on_wake(wake, ts(5)), Step::Drain { should_send: false });
        assert!(agg.details_watchers.is_empty());
        assert!(agg.tasks.is_dirty(1));
        assert_eq!(agg.task_stats.len(), 1);
        assert!(matches!(reply.try_recv(), Err(oneshot::error::TryRecvError::Closed)));

        let (request, mut reply) = details_request(2, buffer);
        agg.add_task_detail_subscription(request, ts(6));
        assert!(agg.details_watchers.is_empty());
        assert!(matches!(reply.try_recv(), Err(oneshot::error::TryRecvError::Closed)));
    }
}

#[test]
fn wake_decides_how_the_loop_goes_on() {
    let mut agg = new_aggregator();
    spawn_task(&mut agg, 1, 0);
    assert_eq!(agg.on_wake(Wake::PublishTick, ts(1)), Step::Drain { should_send: true });
    assert_eq!(agg.on_wake(Wake::RpcsClosed, ts(1)), Step::Terminate);
    assert!(agg.tasks.is_dirty(1));
    assert!(agg.watchers.is_empty());

    assert!(agg.flush().trigger());
    assert!(!agg.flush().trigger());
    assert_eq!(agg.on_wake(Wake::Flush, ts(2)), Step::Drain { should_send: false });
    assert!(agg.flush().trigger());

    let (tx, mut rx) = channel::<InstrumentUpdate>(4);
    let wake = Wake::Subscription(WatchKind::Instrument(Watch(tx)));
    assert_eq!(agg.on_wake(wake, ts(3)), Step::Drain { should_send: false });
    assert_eq!(agg.watchers.len(), 1);
    assert_eq!(rx.try_recv().unwrap().now, ts(3));
    assert!(!agg.tasks.is_dirty(1));

    let (request, mut reply) = details_request(1, 4);
    let wake = Wake::Subscription(WatchKind::TaskDetail(request));
    assert_eq!(agg.on_wake(wake, ts(4)), Step::Drain { should_send: false });
    assert_eq!(agg.details_watchers[&1].len(), 1);
    let mut stream = reply.try_recv().unwrap();
    assert_eq!(stream.try_recv().unwrap().now, ts(4));
}

#[test]
fn details_request_hands_back_the_stream() {
    let mut agg = new_aggregator();
    spawn_task(&mut agg, 1, 0);
    apply(&mut agg, Event::Enter { id: 1, at: ts(10) });
    apply(&mut agg, Event::Exit { id: 1, at: ts(40) });
    let (request, mut reply) = details_request(1, 2);
    agg.add_task_detail_subscription(request, ts(50));
    let mut stream = reply.try_recv().unwrap();
    let first = stream.try_recv().unwrap();
    assert_eq!(first.task_id, 1);
    assert_eq!(first.now, ts(50));
    let bytes = first.poll_times_histogram.unwrap();
    let histogram: Histogram<u64> = Deserializer::new().deserialize(&mut &bytes[..]).unwrap();
    assert_eq!(histogram.count_at(30), 1);
    assert_eq!(agg.details_watchers[&1].len(), 1);

    agg.publish_details(ts(60));
    assert_eq!(stream.try_recv().unwrap().now, ts(60));
    agg.publish_details(ts(70));
    agg.publish_details(ts(80));
    assert_eq!(agg.details_watchers[&1].len(), 1);
    agg.publish_details(ts(90));
    assert!(agg.details_watchers.is_empty());
    assert_eq!(stream.try_recv().unwrap().now, ts(70));
    assert_eq!(stream.try_recv().unwrap().now, ts(80));
    assert!(stream.try_recv().is_err());
}

#[test]
fn details_request_for_an_unknown_task_is_dropped() {
    let mut agg = new_aggregator();
    let (request, mut reply) = details_request(1, 2);
    agg.add_task_detail_subscription(request, ts(50));
    assert!(agg.details_watchers.is_empty());
    assert!(matches!(reply.try_recv(), Err(oneshot::error::TryRecvError::Closed)));
}

#[test]
fn details_request_of_a_requester_that_left_is_dropped() {
    let mut agg = new_aggregator();
    spawn_task(&mut agg, 1, 0);
    let (request, reply) = details_request(1, 2);
    drop(reply);
    agg.add_subscription(WatchKind::TaskDetail(request), ts(50));
    assert!(agg.details_watchers.is_empty());
}

#[test]
fn open_stream_makes_a_queue_of_the_size_asked_for() {
    let (stream_sender, mut reply) = oneshot::channel::<Receiver<u8>>();
    let watch = open_stream(stream_sender, 2).unwrap();
    let mut stream = reply.try_recv().unwrap();
    assert!(watch.update(&1));
    assert!(watch.update(&2));
    assert!(!watch.update(&3));
    assert_eq!(stream.try_recv().ok(), Some(1));
    assert_eq!(stream.try_recv().ok(), Some(2));
    let (stream_sender, reply) = oneshot::channel::<Receiver<u8>>();
    drop(reply);
    assert!(open_stream(stream_sender, 2).is_none());
}

#[test]
fn subscribe_receives_full_snapshot_then_deltas() {
    let mut agg = new_aggregator();
    apply(&mut agg, Event::Metadata(descriptor(1, "task")));
    spawn_task(&mut agg, 1, 10);
    spawn_task(&mut agg, 2, 20);
    let mut rx = subscribe(&mut agg, 8, 100);
    assert_eq!(agg.watchers.len(), 1);

    let first = rx.try_recv().unwrap();
    assert_eq!(first.now, ts(100));
    assert_eq!(sorted_keys(&first.task_update.new_tasks), vec![1, 2]);
    assert_eq!(sorted_keys(&first.task_update.stats_update), vec![1, 2]);
    assert_eq!(first.task_update.new_tasks[&1].id, 1);
    assert_eq!(first.task_update.new_tasks[&1].kind, TaskKind::Spawn);
    assert_eq!(first.task_update.new_tasks[&2].metadata, 1);
    assert_eq!(first.task_update.stats_update[&2].created_at, Some(ts(20)));
    assert_eq!(first.new_metadata, Some(vec![descriptor(1, "task")]));
    assert!(!agg.tasks.is_dirty(1));
    assert!(!agg.task_stats.is_dirty(2));

    spawn_task(&mut agg, 3, 30);
    apply(&mut agg, Event::Enter { id: 1, at: ts(40) });
    agg.publish(ts(200));
    let second = rx.try_recv().unwrap();
    assert_eq!(second.now, ts(200));
    assert_eq!(sorted_keys(&second.task_update.new_tasks), vec![3]);
    assert_eq!(sorted_keys(&second.task_update.stats_update), vec![1, 3]);
    assert_eq!(second.task_update.stats_update[&1].poll_stats.polls, 1);
    assert_eq!(second.task_update.stats_update[&1].poll_stats.first_poll, Some(ts(40)));
    assert_eq!(second.new_metadata, Some(vec![descriptor(1, "task")]));

    agg.publish(ts(300));
    let third = rx.try_recv().unwrap();
    assert!(third.task_update.new_tasks.is_empty());
    assert!(third.task_update.stats_update.is_empty());
    assert_eq!(third.new_metadata, None);
    assert!(rx.try_recv().is_err());
}

#[test]
fn publish_clears_dirty_bits_and_new_metadata() {
    let mut agg = new_aggregator();
    let _rx = subscribe(&mut agg, 8, 0);
    apply(&mut agg, Event::Metadata(descriptor(1, "a")));
    apply(&mut agg, Event::Metadata(descriptor(2, "b")));
    spawn_task(&mut agg, 1, 10);
    apply(
        &mut agg,
        Event::Resource {
            id: 2,
            metadata: 1,
            kind: String::from("Timer"),
            concrete_type: String::from("Sleep"),
            at: ts(11),
        },
    );
    apply(
        &mut agg,
        Event::AsyncResourceOp { id: 3, source: String::from("s"), metadata: 1, at: ts(12) },
    );
    assert!(agg.tasks.is_dirty(1));
    assert!(agg.resource_stats.is_dirty(2));
    assert!(agg.async_ops.is_dirty(3));
    assert_eq!(agg.new_metadata.len(), 2);

    agg.publish(ts(20));
    assert_eq!(agg.new_metadata.len(), 0);
    assert_eq!(agg.all_metadata.len(), 2);
    assert!(!agg.tasks.is_dirty(1));
    assert!(!agg.task_stats.is_dirty(1));
    assert!(!agg.resources.is_dirty(2));
    assert!(!agg.resource_stats.is_dirty(2));
    assert!(!agg.async_ops.is_dirty(3));
    assert!(!agg.async_op_stats.is_dirty(3));
    assert_eq!(agg.tasks.len(), 1);
    assert_eq!(agg.resources.len(), 1);
    assert_eq!(agg.async_ops.len(), 1);
}

#[test]
fn take_update_carries_the_new_metadata_once() {
    let mut agg = new_aggregator();
    apply(&mut agg, Event::Metadata(descriptor(1, "a")));
    let update = agg.take_update(ts(5));
    assert_eq!(update.new_metadata, Some(vec![descriptor(1, "a")]));
    assert_eq!(update.now, ts(5));
    let update = agg.take_update(ts(6));
    assert_eq!(update.new_metadata, None);
    assert_eq!(agg.all_metadata, vec![descriptor(1, "a")]);
}

#[test]
fn initial_update_leaves_the_tables_as_they_are() {
    let mut agg = new_aggregator();
    spawn_task(&mut agg, 1, 10);
    let update = agg.initial_update(ts(50));
    assert_eq!(sorted_keys(&update.task_update.new_tasks), vec![1]);
    assert_eq!(update.new_metadata, Some(Vec::new()));
    assert!(agg.tasks.is_dirty(1));
    assert!(agg.task_stats.is_dirty(1));
}

#[test]
fn slow_subscriber_is_dropped() {
    let mut agg = new_aggregator();
    let mut slow = subscribe(&mut agg, 1, 0);
    let mut fast = subscribe(&mut agg, 16, 0);
    assert_eq!(agg.watchers.len(), 2);
    assert!(slow.try_recv().is_ok());
    assert!(fast.try_recv().is_ok());

    spawn_task(&mut agg, 1, 10);
    agg.publish(ts(20));
    assert_eq!(agg.watchers.len(), 2);
    spawn_task(&mut agg, 2, 30);
    agg.publish(ts(40));
    assert_eq!(agg.watchers.len(), 1);

    spawn_task(&mut agg, 3, 50);
    agg.publish(ts(60));
    assert_eq!(agg.watchers.len(), 1);
    assert_eq!(sorted_keys(&fast.try_recv().unwrap().task_update.new_tasks), vec![1]);
    assert_eq!(sorted_keys(&fast.try_recv().unwrap().task_update.new_tasks), vec![2]);
    assert_eq!(sorted_keys(&fast.try_recv().unwrap().task_update.new_tasks), vec![3]);
    assert_eq!(sorted_keys(&slow.try_recv().unwrap().task_update.new_tasks), vec![1]);
    assert!(slow.try_recv().is_err());
}

#[test]
fn dead_subscription_is_not_added() {
    let mut agg = new_aggregator();
    spawn_task(&mut agg, 1, 10);
    let (tx, rx) = channel::<InstrumentUpdate>(1);
    drop(rx);
    agg.add_instrument_subscription(Watch(tx), ts(20));
    assert_eq!(agg.watchers.len(), 0);
    assert!(agg.tasks.is_dirty(1));
    assert!(agg.task_stats.is_dirty(1));
}

#[test]
fn instrument_subscribed_follows_the_outcome() {
    let mut agg = new_aggregator();
    spawn_task(&mut agg, 1, 10);
    let (tx, _rx) = channel::<InstrumentUpdate>(1);
    agg.instrument_subscribed(Watch(tx), false);
    assert_eq!(agg.watchers.len(), 0);
    assert!(agg.tasks.is_dirty(1));
    let (tx, _rx2) = channel::<InstrumentUpdate>(1);
    agg.instrument_subscribed(Watch(tx), true);
    assert_eq!(agg.watchers.len(), 1);
    assert!(!agg.tasks.is_dirty(1));
    assert!(!agg.task_stats.is_dirty(1));
}

#[test]
fn task_details_carry_the_histogram() {
    let mut agg = new_aggregator();
    spawn_task(&mut agg, 1, 0);
    apply(&mut agg, Event::Enter { id: 1, at: ts(100) });
    apply(&mut agg, Event::Exit { id: 1, at: ts(350) });
    let details = agg.task_details(1, ts(400)).unwrap();
    assert_eq!(details.task_id, 1);
    assert_eq!(details.now, ts(400));
    let bytes = details.poll_times_histogram.unwrap();
    let histogram: Histogram<u64> = Deserializer::new().deserialize(&mut &bytes[..]).unwrap();
    assert_eq!(histogram.len(), 1);
    assert_eq!(histogram.count_at(250), 1);
    assert!(agg.task_details(2, ts(400)).is_none());
}

#[test]
fn task_details_of_an_unpolled_task_hold_an_empty_histogram() {
    let mut agg = new_aggregator();
    spawn_task(&mut agg, 1, 0);
    let bytes = agg.task_details(1, ts(1)).unwrap().poll_times_histogram.unwrap();
    let histogram: Histogram<u64> = Deserializer::new().deserialize(&mut &bytes[..]).unwrap();
    assert_eq!(histogram.len(), 0);
}

#[test]
fn details_subscription_needs_a_known_task() {
    let mut agg = new_aggregator();
    let (tx, mut rx) = channel::<TaskDetails>(4);
    assert!(!agg.watch_task_details(1, Watch(tx), ts(5)));
    assert!(agg.details_watchers.is_empty());
    assert!(rx.try_recv().is_err());

    spawn_task(&mut agg, 1, 0);
    let (tx, mut rx) = channel::<TaskDetails>(4);
    assert!(agg.watch_task_details(1, Watch(tx), ts(6)));
    assert_eq!(agg.details_watchers[&1].len(), 1);
    let first = rx.try_recv().unwrap();
    assert_eq!(first.task_id, 1);
    assert_eq!(first.now, ts(6));

    let (tx, _rx2) = channel::<TaskDetails>(4);
    assert!(agg.watch_task_details(1, Watch(tx), ts(7)));
    assert_eq!(agg.details_watchers[&1].len(), 2);

    let (tx, dead) = channel::<TaskDetails>(4);
    drop(dead);
    assert!(agg.watch_task_details(1, Watch(tx), ts(8)));
    assert_eq!(agg.details_watchers[&1].len(), 2);
}

#[test]
fn publish_serves_details_watchers_and_prunes_them() {
    let mut agg = new_aggregator();
    let _instrument = subscribe(&mut agg, 16, 0);
    spawn_task(&mut agg, 1, 0);
    spawn_task(&mut agg, 2, 0);
    let (tx1, mut rx1) = channel::<TaskDetails>(8);
    let (tx2, rx2) = channel::<TaskDetails>(8);
    let (tx3, mut rx3) = channel::<TaskDetails>(8);
    assert!(agg.watch_task_details(1, Watch(tx1), ts(1)));
    assert!(agg.watch_task_details(2, Watch(tx2), ts(1)));
    assert!(agg.watch_task_details(1, Watch(tx3), ts(1)));
    assert!(rx1.try_recv().is_ok());
    assert!(rx3.try_recv().is_ok());
    drop(rx2);

    apply(&mut agg, Event::Enter { id: 1, at: ts(10) });
    apply(&mut agg, Event::Exit { id: 1, at: ts(30) });
    agg.publish(ts(50));
    assert_eq!(agg.details_watchers.len(), 1);
    assert_eq!(agg.details_watchers[&1].len(), 2);
    let details = rx1.try_recv().unwrap();
    assert_eq!(details.task_id, 1);
    assert_eq!(details.now, ts(50));
    let bytes = details.poll_times_histogram.unwrap();
    let histogram: Histogram<u64> = Deserializer::new().deserialize(&mut &bytes[..]).unwrap();
    assert_eq!(histogram.count_at(20), 1);
    assert!(rx3.try_recv().is_ok());

    drop(rx3);
    agg.publish(ts(60));
    assert_eq!(agg.details_watchers[&1].len(), 1);
    assert!(rx1.try_recv().is_ok());
}

#[test]
fn details_bucket_of_a_reclaimed_task_is_dropped() {
    let mut agg = Aggregator::new(Duration::from_nanos(1), Duration::from_nanos(10));
    spawn_task(&mut agg, 1, 0);
    let (tx, _rx) = channel::<TaskDetails>(8);
    assert!(agg.watch_task_details(1, Watch(tx), ts(1)));
    apply(&mut agg, Event::Close { id: 1, at: ts(2) });
    agg.cleanup_closed(ts(100));
    assert!(agg.task_stats.get(1).is_none());
    agg.publish_details(ts(101));
    assert!(agg.details_watchers.is_empty());
}

#[test]
fn finish_iteration_publishes_only_on_a_tick_with_watchers() {
    let mut agg = new_aggregator();
    spawn_task(&mut agg, 1, 0);
    assert!(!agg.finish_iteration(true, ts(10)));
    assert!(agg.tasks.is_dirty(1));

    let mut rx = subscribe(&mut agg, 8, 20);
    assert!(rx.try_recv().is_ok());
    spawn_task(&mut agg, 2, 30);
    assert!(!agg.finish_iteration(Wake::Flush.should_send(), ts(40)));
    assert!(agg.tasks.is_dirty(2));
    assert!(rx.try_recv().is_err());

    assert!(agg.finish_iteration(Wake::PublishTick.should_send(), ts(50)));
    assert!(!agg.tasks.is_dirty(2));
    let update = rx.try_recv().unwrap();
    assert_eq!(sorted_keys(&update.task_update.new_tasks), vec![2]);
    assert_eq!(update.now, ts(50));
}

#[test]
fn subscriber_reconstructs_the_state() {
    let mut agg = new_aggregator();
    let mut mirror: std::collections::HashMap<u64, console_aggregator::wire::TaskStatsProto> =
        std::collections::HashMap::new();
    spawn_task(&mut agg, 1, 0);
    apply(&mut agg, Event::Enter { id: 1, at: ts(5) });
    let mut rx = subscribe(&mut agg, 8, 6);
    mirror.extend(rx.try_recv().unwrap().task_update.stats_update);
    apply(&mut agg, Event::Exit { id: 1, at: ts(9) });
    spawn_task(&mut agg, 2, 10);
    agg.publish(ts(11));
    mirror.extend(rx.try_recv().unwrap().task_update.stats_update);
    apply(&mut agg, Event::Close { id: 2, at: ts(12) });
    agg.publish(ts(13));
    mirror.extend(rx.try_recv().unwrap().task_update.stats_update);

    let all = agg.initial_update(ts(14)).task_update.stats_update;
    assert_eq!(mirror, all);
    assert_eq!(mirror[&1].poll_stats.busy_time, Duration::from_nanos(4));
    assert_eq!(mirror[&2].total_time, Some(Duration::from_nanos(2)));
}

#[test]
fn finish_iteration_serves_the_details_watchers_when_it_publishes() {
    let mut agg = new_aggregator();
    let _instrument = subscribe(&mut agg, 16, 0);
    spawn_task(&mut agg, 1, 0);
    spawn_task(&mut agg, 2, 0);
    let (tx1, mut rx1) = channel::<TaskDetails>(8);
    let (tx2, rx2) = channel::<TaskDetails>(8);
    assert!(agg.watch_task_details(1, Watch(tx1), ts(1)));
    assert!(agg.watch_task_details(2, Watch(tx2), ts(1)));
    assert!(rx1.try_recv().is_ok());
    drop(rx2);

    assert!(!agg.finish_iteration(false, ts(5)));
    assert_eq!(agg.details_watchers.len(), 2);
    assert!(rx1.try_recv().is_err());

    assert!(agg.finish_iteration(true, ts(6)));
    assert_eq!(agg.details_watchers.len(), 1);
    assert_eq!(agg.details_watchers[&1].len(), 1);
    assert_eq!(rx1.try_recv().unwrap().now, ts(6));
}
