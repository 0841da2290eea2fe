use console_aggregator::attribute::AttrValue;
use console_aggregator::attribute::Attribute;
use console_aggregator::attribute::AttributeUpdate;
use console_aggregator::attribute::AttributeUpdateOp;
use console_aggregator::attribute::AttributeUpdateValue;
use console_aggregator::copy::DeepCopy;
use console_aggregator::copy::copy_all;
use console_aggregator::entity::AsyncOpStats;
use console_aggregator::entity::DefaultRow;
use console_aggregator::entity::ResourceOp;
use console_aggregator::entity::Task;
use console_aggregator::entity::TaskStats;
use console_aggregator::event::Field;
use console_aggregator::event::FieldValue;
use console_aggregator::event::Level;
use console_aggregator::event::Metadata;
use console_aggregator::event::OpType;
use console_aggregator::event::Readiness;
use console_aggregator::event::WakeOp;
use console_aggregator::histogram::histogram_field;
use console_aggregator::histogram::serialize_histogram;
use console_aggregator::poll::PollStats;
use console_aggregator::resource::ResourceStats;
use console_aggregator::resource::copy_attributes;
use console_aggregator::table::ToProto;
use console_aggregator::time::Duration;
use console_aggregator::time::Timestamp;
use console_aggregator::time::total_time;
use console_aggregator::watch::Watch;
use console_aggregator::watch::keep_if_sent;
use console_aggregator::watch::retain_sent;
use console_aggregator::wire::AttributeUpdateProto;
use console_aggregator::wire::OpTypeProto;
use console_aggregator::wire::TaskKind;
use console_aggregator::wire::UpdateProto;
use hdrhistogram::Histogram;
use hdrhistogram::serialization::Deserializer;
use hdrhistogram::serialization::V2SerializeError;

fn t(nanos: u128) -> Timestamp {
    Timestamp::from_nanos(nanos)
}

fn d(nanos: u128) -> Duration {
    Duration::from_nanos(nanos)
}

fn number(val: u64, unit: &str) -> AttrValue {
    AttrValue::Numeric { val, unit: String::from(unit) }
}

fn change(val: u64, op: AttributeUpdateOp, unit: &str) -> AttributeUpdateValue {
    AttributeUpdateValue::Numeric { val, op, unit: String::from(unit) }
}

#[test]
fn total_time_needs_both_ends() {
    assert_eq!(total_time(Some(&t(100)), Some(&t(350))), Some(d(250)));
    assert_eq!(total_time(Some(&t(100)), Some(&t(100))), Some(d(0)));
    assert_eq!(total_time(Some(&t(100)), None), None);
    assert_eq!(total_time(None, Some(&t(100))), None);
    assert_eq!(total_time(None, None), None);
}

#[test]
fn total_time_of_a_close_before_the_creation_is_absent() {
    assert_eq!(total_time(Some(&t(100)), Some(&t(99))), None);
}

#[test]
fn durations_between_timestamps() {
    assert_eq!(t(500).saturating_duration_since(t(200)), d(300));
    assert_eq!(t(200).saturating_duration_since(t(500)), d(0));
    assert_eq!(t(500).checked_duration_since(t(200)), Some(d(300)));
    assert_eq!(t(200).checked_duration_since(t(500)), None);
    assert_eq!(t(7).checked_duration_since(t(7)), Some(d(0)));
}

#[test]
fn duration_sums_are_checked() {
    assert_eq!(d(3).checked_add(d(4)), Some(d(7)));
    assert_eq!(d(u128::MAX).checked_add(d(0)), Some(d(u128::MAX)));
    assert_eq!(d(u128::MAX).checked_add(d(1)), None);
    assert_eq!(Duration::zero(), d(0));
}

#[test]
fn samples_are_clamped() {
    assert_eq!(d(0).as_sample(), 0);
    assert_eq!(d(300).as_sample(), 300);
    assert_eq!(d(u64::MAX as u128).as_sample(), u64::MAX);
    assert_eq!(d(u64::MAX as u128 + 1).as_sample(), u64::MAX);
    assert_eq!(d(u128::MAX).as_sample(), u64::MAX);
}

#[test]
fn poll_stats_follow_outermost_polls() {
    let mut stats = PollStats::default();
    stats.enter(t(10));
    assert_eq!(stats.current_polls, 1);
    assert_eq!(stats.polls, 1);
    assert_eq!(stats.first_poll, Some(t(10)));
    stats.enter(t(11));
    assert_eq!(stats.current_polls, 2);
    assert_eq!(stats.polls, 1);
    assert_eq!(stats.last_poll_started, Some(t(10)));
    assert_eq!(stats.exit(t(12)), None);
    assert_eq!(stats.exit(t(25)), Some(d(15)));
    assert_eq!(stats.busy_time, d(15));
    assert_eq!(stats.last_poll_ended, Some(t(25)));
    assert_eq!(stats.exit(t(30)), None);
    assert_eq!(stats.current_polls, 0);
    assert_eq!(stats.busy_time, d(15));
    assert_eq!(stats.last_poll_ended, Some(t(25)));
}

#[test]
fn exit_without_a_known_start_is_skipped() {
    let mut stats = PollStats::default();
    stats.current_polls = 1;
    assert_eq!(stats.exit(t(5)), None);
    assert_eq!(stats.current_polls, 0);
    assert_eq!(stats.last_poll_ended, None);
    assert_eq!(stats.busy_time, d(0));
}

#[test]
fn reported_polls_set_first_poll_when_pending() {
    let mut stats = PollStats::default();
    stats.poll(false, t(1));
    assert_eq!(stats.polls, 1);
    assert_eq!(stats.first_poll, None);
    stats.poll(true, t(2));
    stats.poll(true, t(3));
    assert_eq!(stats.polls, 3);
    assert_eq!(stats.first_poll, Some(t(2)));
    assert_eq!(stats.current_polls, 0);
}

#[test]
fn attribute_updates_follow_their_operator() {
    let mut value = number(10, "b");
    value.update(&change(5, AttributeUpdateOp::Add, "x"));
    assert_eq!(value, number(15, "b"));
    value.update(&change(7, AttributeUpdateOp::Sub, "x"));
    assert_eq!(value, number(8, "b"));
    value.update(&change(100, AttributeUpdateOp::Ovr, "x"));
    assert_eq!(value, number(100, "b"));
    let mut text = AttrValue::Text(String::from("idle"));
    text.update(&AttributeUpdateValue::Text(String::from("busy")));
    assert_eq!(text, AttrValue::Text(String::from("busy")));
}

#[test]
fn attribute_updates_are_checked_before_they_are_applied() {
    let value = number(10, "b");
    assert!(value.can_update(&change(u64::MAX - 10, AttributeUpdateOp::Add, "b")));
    assert!(!value.can_update(&change(u64::MAX - 9, AttributeUpdateOp::Add, "b")));
    assert!(value.can_update(&change(10, AttributeUpdateOp::Sub, "b")));
    assert!(!value.can_update(&change(11, AttributeUpdateOp::Sub, "b")));
    assert!(value.can_update(&change(u64::MAX, AttributeUpdateOp::Ovr, "b")));
    assert!(!value.can_update(&AttributeUpdateValue::Text(String::from("x"))));
    let text = AttrValue::Text(String::from("idle"));
    assert!(text.can_update(&AttributeUpdateValue::Text(String::from("x"))));
    assert!(!text.can_update(&change(1, AttributeUpdateOp::Ovr, "b")));
}

#[test]
fn attribute_from_an_update_takes_its_value() {
    assert_eq!(AttrValue::from(change(3, AttributeUpdateOp::Sub, "msg")), number(3, "msg"));
    assert_eq!(
        AttrValue::from(AttributeUpdateValue::Text(String::from("x"))),
        AttrValue::Text(String::from("x"))
    );
}

#[test]
fn copies_are_equal() {
    let update = AttributeUpdate {
        name: String::from("n"),
        val: change(3, AttributeUpdateOp::Sub, "msg"),
    };
    assert_eq!(update.duplicate(), update);
    assert_eq!(update.val.duplicate(), update.val);
    assert_eq!(number(4, "u").duplicate(), number(4, "u"));
    let attrs = vec![
        Attribute { name: String::from("a"), value: number(1, "u") },
        Attribute { name: String::from("b"), value: AttrValue::Text(String::from("t")) },
    ];
    assert_eq!(copy_attributes(&attrs), attrs);
    let fields = vec![
        Field { name: String::from("a"), value: FieldValue::Debug(String::from("x")) },
        Field { name: String::from("b"), value: FieldValue::I64(-4) },
        Field { name: String::from("c"), value: FieldValue::Bool(true) },
    ];
    assert_eq!(copy_all(&fields), fields);
    let meta = Metadata {
        id: 5,
        name: String::from("n"),
        target: String::from("t"),
        level: Level::Warn,
        field_names: vec![String::from("a"), String::from("b")],
    };
    assert_eq!(meta.deep_copy(), meta);
    assert_eq!(String::from("abc").deep_copy(), "abc");
}

#[test]
fn resource_stats_find_attributes_by_name() {
    let mut stats = ResourceStats::default();
    let add = AttributeUpdate { name: String::from("a"), val: change(2, AttributeUpdateOp::Add, "u") };
    assert!(stats.can_apply(&add));
    stats.apply(&add);
    stats.apply(&AttributeUpdate {
        name: String::from("b"),
        val: AttributeUpdateValue::Text(String::from("x")),
    });
    stats.apply(&add);
    assert_eq!(stats.position(&String::from("a")), Some(0));
    assert_eq!(stats.position(&String::from("b")), Some(1));
    assert_eq!(stats.position(&String::from("c")), None);
    assert_eq!(stats.attribute(&String::from("a")), Some(&number(4, "u")));
    let wrong = AttributeUpdate {
        name: String::from("b"),
        val: change(2, AttributeUpdateOp::Add, "u"),
    };
    assert!(!stats.can_apply(&wrong));
    assert!(!stats.can_apply_all(&vec![add.duplicate(), wrong]));
    assert!(stats.can_apply_all(&vec![add.duplicate(), add.duplicate()]));
    assert!(stats.can_apply_all(&Vec::new()));
    stats.apply_all(&vec![add.duplicate(), add.duplicate()]);
    assert_eq!(stats.attribute(&String::from("a")), Some(&number(8, "u")));
    assert_eq!(stats.attributes.len(), 2);
}

#[test]
fn task_stats_to_proto_computes_the_total_time() {
    let mut stats = TaskStats::spawned(t(100));
    stats.wake(WakeOp::Clone, t(110));
    stats.wake(WakeOp::Wake, t(120));
    stats.enter(t(130));
    stats.exit(t(150));
    let open = stats.to_proto();
    assert_eq!(open.created_at, Some(t(100)));
    assert_eq!(open.total_time, None);
    assert_eq!(open.wakes, 1);
    assert_eq!(open.waker_clones, 1);
    assert_eq!(open.waker_drops, 1);
    assert_eq!(open.last_wake, Some(t(120)));
    assert_eq!(open.poll_stats.polls, 1);
    assert_eq!(open.poll_stats.busy_time, d(20));
    assert_eq!(open.poll_stats.first_poll, Some(t(130)));
    assert_eq!(open.poll_stats.last_poll_started, Some(t(130)));
    assert_eq!(open.poll_stats.last_poll_ended, Some(t(150)));
    stats.closed_at = Some(t(400));
    assert_eq!(stats.to_proto().total_time, Some(d(300)));
}

#[test]
fn task_stats_check_their_limits() {
    let mut stats = TaskStats::default();
    assert!(stats.can_wake(WakeOp::Wake));
    assert!(stats.can_enter());
    assert!(stats.can_exit(t(0)));
    stats.waker_drops = u64::MAX;
    assert!(!stats.can_wake(WakeOp::Wake));
    assert!(!stats.can_wake(WakeOp::Drop));
    assert!(stats.can_wake(WakeOp::WakeByRef));
    assert!(stats.can_wake(WakeOp::Clone));
    stats.poll_stats.current_polls = u64::MAX;
    assert!(!stats.can_enter());
}

#[test]
fn rows_to_proto() {
    let task = Task {
        id: 3,
        metadata: 4,
        fields: vec![Field { name: String::from("a"), value: FieldValue::U64(1) }],
    };
    let proto = task.to_proto();
    assert_eq!(proto.id, 3);
    assert_eq!(proto.kind, TaskKind::Spawn);
    assert_eq!(proto.metadata, 4);
    assert_eq!(proto.fields, task.fields);

    let mut stats = ResourceStats::default();
    stats.created_at = Some(t(1));
    stats.closed_at = Some(t(9));
    stats.apply(&AttributeUpdate {
        name: String::from("a"),
        val: change(2, AttributeUpdateOp::Add, "u"),
    });
    stats.apply(&AttributeUpdate {
        name: String::from("b"),
        val: AttributeUpdateValue::Text(String::from("x")),
    });
    let proto = stats.to_proto();
    assert_eq!(proto.created_at, Some(t(1)));
    assert_eq!(proto.total_time, Some(d(8)));
    assert_eq!(proto.attributes, vec![number(2, "u"), AttrValue::Text(String::from("x"))]);

    let mut op_stats = AsyncOpStats::default();
    op_stats.record_poll(11, 12, 13, true, t(5));
    op_stats.created_at = Some(t(2));
    op_stats.closed_at = Some(t(1));
    let proto = op_stats.to_proto();
    assert_eq!(proto.latest_poll_op, Some(11));
    assert_eq!(proto.task_id, Some(12));
    assert_eq!(proto.resource_id, Some(13));
    assert_eq!(proto.total_time, None);
    assert_eq!(proto.poll_stats.polls, 1);
    assert_eq!(proto.poll_stats.first_poll, Some(t(5)));
}

#[test]
fn op_type_to_proto() {
    let poll = OpType::Poll { async_op_id: 1, task_id: 2, readiness: Readiness::Pending };
    assert_eq!(
        poll.to_proto(),
        OpTypeProto::Poll { task_id: 2, async_op_id: 1, readiness: Readiness::Pending }
    );
    let ready = OpType::Poll { async_op_id: 1, task_id: 2, readiness: Readiness::Ready };
    assert_eq!(
        ready.to_proto(),
        OpTypeProto::Poll { task_id: 2, async_op_id: 1, readiness: Readiness::Ready }
    );
    let update = OpType::StateUpdate(vec![
        AttributeUpdate { name: String::from("a"), val: change(2, AttributeUpdateOp::Add, "u") },
        AttributeUpdate { name: String::from("b"), val: change(3, AttributeUpdateOp::Sub, "v") },
        AttributeUpdate { name: String::from("c"), val: change(4, AttributeUpdateOp::Ovr, "w") },
        AttributeUpdate {
            name: String::from("d"),
            val: AttributeUpdateValue::Text(String::from("x")),
        },
    ]);
    let numeric = |name: &str, val: u64, op: AttributeUpdateOp, unit: &str| AttributeUpdateProto {
        name: String::from(name),
        update: UpdateProto::Numeric { val, op, unit: String::from(unit) },
    };
    assert_eq!(
        update.to_proto(),
        OpTypeProto::StateUpdate {
            updates: vec![
                numeric("a", 2, AttributeUpdateOp::Add, "u"),
                numeric("b", 3, AttributeUpdateOp::Sub, "v"),
                numeric("c", 4, AttributeUpdateOp::Ovr, "w"),
                AttributeUpdateProto {
                    name: String::from("d"),
                    update: UpdateProto::Text(String::from("x")),
                },
            ],
        }
    );
    let op = ResourceOp {
        id: 7,
        metadata: 7,
        resource_id: 8,
        op_name: String::from("poll"),
        op_type: poll,
    };
    let proto = op.to_proto();
    assert_eq!(proto.id, 7);
    assert_eq!(proto.metadata, 7);
    assert_eq!(proto.resource_id, 8);
    assert_eq!(proto.name, "poll");
    assert_eq!(
        proto.op_type,
        OpTypeProto::Poll { task_id: 2, async_op_id: 1, readiness: Readiness::Pending }
    );
}

#[test]
fn histogram_field_drops_a_failed_serialization() {
    assert_eq!(histogram_field(Ok(vec![1, 2, 3])), Some(vec![1, 2, 3]));
    assert_eq!(histogram_field(Err(V2SerializeError::CountNotSerializable)), None);
    assert_eq!(histogram_field(Err(V2SerializeError::UsizeTypeTooSmall)), None);
}

#[test]
fn serialized_histogram_holds_the_samples() {
    let mut stats = TaskStats::default();
    for (start, end) in [(0u128, 1_000u128), (2_000, 3_000), (5_000, 5_007)] {
        stats.enter(t(start));
        stats.exit(t(end));
    }
    let bytes = serialize_histogram(&stats.poll_times_histogram).unwrap();
    let histogram: Histogram<u64> = Deserializer::new().deserialize(&mut &bytes[..]).unwrap();
    assert_eq!(histogram.len(), 3);
    assert_eq!(histogram.count_at(1_000), 2);
    assert_eq!(histogram.count_at(7), 1);
    assert_eq!(stats.poll_times_recorded(), 3);
}

#[test]
fn watchers_are_kept_in_order() {
    let (tx1, _rx1) = tokio::sync::mpsc::channel::<u8>(1);
    let (tx2, rx2) = tokio::sync::mpsc::channel::<u8>(1);
    let (tx3, mut rx3) = tokio::sync::mpsc::channel::<u8>(1);
    drop(rx2);
    let kept = retain_sent(vec![Watch(tx1), Watch(tx2), Watch(tx3)], &5);
    assert_eq!(kept.len(), 2);
    assert_eq!(rx3.try_recv().ok(), Some(5));
    assert!(kept[1].update(&6));
    assert_eq!(rx3.try_recv().ok(), Some(6));
    let kept = retain_sent(kept, &7);
    assert_eq!(kept.len(), 1);
    assert_eq!(rx3.try_recv().ok(), Some(7));

    let mut list: Vec<Watch<u8>> = Vec::new();
    let (tx, _rx) = tokio::sync::mpsc::channel::<u8>(1);
    keep_if_sent(&mut list, Watch(tx), false);
    assert!(list.is_empty());
    let (tx, _rx) = tokio::sync::mpsc::channel::<u8>(1);
    keep_if_sent(&mut list, Watch(tx), true);
    assert_eq!(list.len(), 1);
}

#[test]
fn serialized_histogram_depends_on_the_samples_alone() {
    let polls = [(0u128, 5u128), (10, 1_000_010), (20, 320), (30, 35), (40, 9_000_000_040)];
    let mut forward = TaskStats::default();
    for (start, end) in polls {
        forward.enter(t(start));
        forward.exit(t(end));
    }
    let mut backward = TaskStats::default();
    for (start, end) in polls.iter().rev() {
        backward.enter(t(*start));
        backward.exit(t(*end));
    }
    let first = serialize_histogram(&forward.poll_times_histogram);
    assert!(first.is_some());
    assert_eq!(first, serialize_histogram(&forward.poll_times_histogram));
    assert_eq!(first, serialize_histogram(&backward.poll_times_histogram));
    assert_ne!(first, serialize_histogram(&TaskStats::default().poll_times_histogram));
}

#[test]
fn close_is_kept_once_set() {
    let mut task = TaskStats::default();
    task.close(t(5));
    task.close(t(9));
    assert_eq!(task.closed_at, Some(t(5)));
    let mut resource = ResourceStats::default();
    resource.close(t(6));
    resource.close(t(2));
    assert_eq!(resource.closed_at, Some(t(6)));
    let mut op = AsyncOpStats::default();
    op.close(t(7));
    op.close(t(8));
    assert_eq!(op.closed_at, Some(t(7)));
}

#[test]
fn default_rows_are_the_default_statistics() {
    assert_eq!(AsyncOpStats::default_row(), AsyncOpStats::default());
    assert_eq!(ResourceStats::default_row(), ResourceStats::default());
    let task = TaskStats::default_row();
    assert_eq!(task.created_at, None);
    assert_eq!(task.closed_at, None);
    assert_eq!(task.wakes, 0);
    assert_eq!(task.poll_stats, PollStats::default());
    assert_eq!(task.poll_times_recorded(), 0);
}
