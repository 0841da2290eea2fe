//! The aggregator: the entity tables, the subscribers, and the operations
//! that the driving loop performs on them.
use crate::copy::DeepCopy;
use crate::copy::copy_all;
use crate::copy::views_of;
use crate::entity::AsyncOp;
use crate::entity::AsyncOpStats;
use crate::entity::Resource;
use crate::entity::ResourceOp;
use crate::entity::Task;
use crate::entity::TaskStats;
use crate::event::Event;
use crate::event::Metadata;
use crate::event::MetadataView;
use crate::event::OpType;
use crate::event::Readiness;
use crate::flush::Flush;
use crate::histogram::bytes_of;
use crate::histogram::serialize_histogram;
use crate::histogram::v2_encoding;
use crate::laws::law_publish_leaves_no_dirty_row;
use crate::resource::ResourceStats;
use crate::retention::drop_closed;
use crate::state::State;
use crate::state::lemma_passes_keep_wf;
use crate::state::lemma_reduce_keeps_wf;
use crate::table::IdData;
use crate::table::keys_of;
use crate::time::Duration;
use crate::time::Timestamp;
use crate::watch::Watch;
use crate::watch::WatchRequest;
use crate::watch::is_valid_buffer;
use crate::watch::kept_by;
use crate::watch::open_stream;
use crate::watch::retain_sent;
use crate::wire::AsyncOpUpdate;
use crate::wire::InstrumentUpdate;
use crate::wire::ResourceOpUpdate;
use crate::wire::ResourceUpdate;
use crate::wire::TaskDetails;
use crate::wire::TaskUpdate;
use std::collections::HashMap;
use std::sync::Arc;
use vstd::prelude::*;
use vstd::std_specs::hash::*;

verus! {

broadcast use vstd::std_specs::hash::group_hash_axioms;

/// A subscription request.
pub enum WatchKind {
    /// For the instrument stream, with the subscriber's queue.
    Instrument(Watch<InstrumentUpdate>),
    /// For the details stream of one task.
    TaskDetail(WatchRequest<TaskDetails>),
}

/// What ended the aggregator's wait.
pub enum Wake {
    /// The publish interval elapsed.
    PublishTick,
    /// A producer signalled that the event buffer is filling up.
    Flush,
    /// A subscription arrived.
    Subscription(WatchKind),
    /// The subscription channel was closed.
    RpcsClosed,
}

/// What the loop does after a wake.
#[derive(Clone, Copy, Debug, PartialEq, Eq, Structural)]
pub enum Step {
    /// Drain the event channel and finish the iteration, publishing if
    /// `should_send`.
    Drain { should_send: bool },
    /// Stop.
    Terminate,
}

/// What became of one reading of the event channel.
#[derive(Clone, Copy, Debug, PartialEq, Eq, Structural)]
pub enum Drained {
    /// An event was read and reduced.
    Applied,
    /// An event was read that the state does not accept; nothing changed.
    Rejected,
    /// The channel is closed: the loop stops.
    Closed,
}

impl Wake {
    /// Whether the iteration that this wake starts publishes: only a publish
    /// tick does. A flush or a subscription drains the events and no more.
    pub open spec fn sends(self) -> bool {
        self is PublishTick
    }

    /// Whether the request that this wake brings can be served in `state`.
    /// Only a details request may fail to be: see `State::serves`.
    pub open spec fn servable_in(self, state: State) -> bool {
        self matches Wake::Subscription(WatchKind::TaskDetail(request)) ==> state.serves(
            request.id,
            request.buffer,
        )
    }

    pub fn should_send(&self) -> (send: bool)
        ensures
            send == self.sends(),
    {
        match self {
            Wake::PublishTick => true,
            _ => false,
        }
    }

}

/// The details watchers of a task: its bucket, or none.
pub open spec fn bucket_of(
    buckets: Map<u64, Vec<Watch<TaskDetails>>>,
    task_id: u64,
) -> Seq<Watch<TaskDetails>> {
    if buckets.contains_key(task_id) {
        buckets[task_id]@
    } else {
        Seq::empty()
    }
}

/// Whether the details watchers changed by one new watcher at the end of the
/// task's bucket, and in nothing else.
pub open spec fn gained_watcher(
    before: Map<u64, Vec<Watch<TaskDetails>>>,
    after: Map<u64, Vec<Watch<TaskDetails>>>,
    task_id: u64,
) -> bool {
    &&& after.contains_key(task_id)
    &&& after == before.insert(task_id, after[task_id])
    &&& after[task_id]@.len() > 0
    &&& after[task_id]@.drop_last() == bucket_of(before, task_id)
}

/// The state of the aggregator task.
pub struct Aggregator {
    /// The interval at which updates are pushed to subscribers.
    pub publish_interval: Duration,
    /// How long the rows of a closed entity are kept.
    pub retention: Duration,
    /// The signal by which producers ask for an early drain.
    pub flush_capacity: Arc<Flush>,
    /// The subscribers of the instrument stream.
    pub watchers: Vec<Watch<InstrumentUpdate>>,
    /// The subscribers of task details, by task id.
    pub details_watchers: HashMap<u64, Vec<Watch<TaskDetails>>>,
    /// All metadata ever registered, sent to each new subscriber.
    pub all_metadata: Vec<Metadata>,
    /// The metadata registered since the last publish.
    pub new_metadata: Vec<Metadata>,
    pub tasks: IdData<Task>,
    pub task_stats: IdData<TaskStats>,
    pub resources: IdData<Resource>,
    pub resource_stats: IdData<ResourceStats>,
    pub async_ops: IdData<AsyncOp>,
    pub async_op_stats: IdData<AsyncOpStats>,
    pub resource_ops: IdData<ResourceOp>,
}

impl View for Aggregator {
    type V = State;

    open spec fn view(&self) -> State {
        State {
            all_metadata: views_of(self.all_metadata@),
            new_metadata: views_of(self.new_metadata@),
            tasks: self.tasks@,
            task_stats: self.task_stats@,
            resources: self.resources@,
            resource_stats: self.resource_stats@,
            async_ops: self.async_ops@,
            async_op_stats: self.async_op_stats@,
            resource_ops: self.resource_ops@,
        }
    }
}

impl Aggregator {
    /// What an operation on the tables leaves as it was: the configuration
    /// and the subscribers.
    pub open spec fn same_subscribers(self, other: Aggregator) -> bool {
        &&& self.publish_interval == other.publish_interval
        &&& self.retention == other.retention
        &&& self.flush_capacity == other.flush_capacity
        &&& self.watchers == other.watchers
        &&& self.details_watchers == other.details_watchers
    }

    /// An aggregator without rows or subscribers.
    pub fn new(publish_interval: Duration, retention: Duration) -> (aggregator: Aggregator)
        ensures
            aggregator@ == State::empty(),
            aggregator@.wf(),
            aggregator.publish_interval == publish_interval,
            aggregator.retention == retention,
            aggregator.watchers@.len() == 0,
            aggregator.details_watchers@ == Map::<u64, Vec<Watch<TaskDetails>>>::empty(),
    {
        let aggregator = Aggregator {
            publish_interval,
            retention,
            flush_capacity: Arc::new(Flush::new()),
            watchers: Vec::new(),
            details_watchers: HashMap::new(),
            all_metadata: Vec::new(),
            new_metadata: Vec::new(),
            tasks: IdData::new(),
            task_stats: IdData::new(),
            resources: IdData::new(),
            resource_stats: IdData::new(),
            async_ops: IdData::new(),
            async_op_stats: IdData::new(),
            resource_ops: IdData::new(),
        };
        proof {
            assert(views_of(aggregator.all_metadata@) =~= Seq::<MetadataView>::empty());
            assert(views_of(aggregator.new_metadata@) =~= Seq::<MetadataView>::empty());
            assert(aggregator@.all_metadata.subrange(0, 0) =~= aggregator@.new_metadata);
        }
        aggregator
    }

    /// The flush signal, for the producers of events.
    pub fn flush(&self) -> (flush: &Arc<Flush>)
        ensures
            *flush == self.flush_capacity,
    {
        &self.flush_capacity
    }

    /// Whether a request for the details of task `id` can be served, decided
    /// at run time.
    pub fn can_serve_request(&self, id: u64, buffer: usize) -> (ok: bool)
        ensures
            ok == self@.serves(id, buffer),
    {
        !self.task_stats.contains(id) || is_valid_buffer(buffer)
    }

    /// Whether what a wake brings can be served, decided at run time.
    pub fn can_serve(&self, wake: &Wake) -> (ok: bool)
        ensures
            ok == wake.servable_in(self@),
    {
        match wake {
            Wake::Subscription(WatchKind::TaskDetail(request)) => self.can_serve_request(
                request.id,
                request.buffer,
            ),
            _ => true,
        }
    }

    /// Whether `event` can be reduced, decided at run time.
    pub fn can_apply(&self, event: &Event) -> (ok: bool)
        ensures
            ok == self@.accepts(event@),
    {
        match event {
            Event::Enter { id, at } => {
                let task_ok = match self.task_stats.get(*id) {
                    Some(stats) => stats.can_enter(),
                    None => true,
                };
                let op_ok = match self.async_op_stats.get(*id) {
                    Some(stats) => stats.poll_stats.current_polls < u64::MAX && (
                    stats.poll_stats.current_polls != 0 || stats.poll_stats.polls < u64::MAX),
                    None => true,
                };
                task_ok && op_ok
            },
            Event::Exit { id, at } => {
                let task_ok = match self.task_stats.get(*id) {
                    Some(stats) => stats.can_exit(*at),
                    None => true,
                };
                let op_ok = match self.async_op_stats.get(*id) {
                    Some(stats) => {
                        if stats.poll_stats.current_polls == 1 {
                            match stats.poll_stats.last_poll_started {
                                Some(started) => at.saturating_duration_since(started).nanos
                                    <= u128::MAX - stats.poll_stats.busy_time.nanos,
                                None => true,
                            }
                        } else {
                            true
                        }
                    },
                    None => true,
                };
                task_ok && op_ok
            },
            Event::Waker { id, op, at } => match self.task_stats.get(*id) {
                Some(stats) => stats.can_wake(*op),
                None => true,
            },
            Event::ResourceOp { metadata, at, resource_id, op_name, op_type } => match op_type {
                OpType::StateUpdate(updates) => match self.resource_stats.get(*resource_id) {
                    Some(stats) => stats.can_apply_all(updates),
                    None => true,
                },
                OpType::Poll { async_op_id, task_id, readiness } => match self.async_op_stats.get(
                    *async_op_id,
                ) {
                    Some(stats) => stats.poll_stats.polls < u64::MAX,
                    None => true,
                },
            },
            _ => true,
        }
    }

    /// Updates the state with one event if the state accepts it, and leaves
    /// the state as it is otherwise. Returns whether the event was applied.
    pub fn try_update_state(&mut self, event: Event) -> (applied: bool)
        ensures
            applied == old(self)@.accepts(event@),
            final(self)@ == if applied {
                old(self)@.reduce(event@)
            } else {
                old(self)@
            },
            old(self)@.wf() ==> final(self)@.wf(),
            final(self).same_subscribers(*old(self)),
    {
        if self.can_apply(&event) {
            self.update_state(event);
            true
        } else {
            false
        }
    }

    /// Takes one reading of the event channel while draining it: an event,
    /// which is reduced if the state accepts it, or the news that the channel
    /// is closed.
    pub fn on_event(&mut self, event: Option<Event>) -> (outcome: Drained)
        ensures
            outcome == match event {
                Some(e) => if old(self)@.accepts(e@) {
                    Drained::Applied
                } else {
                    Drained::Rejected
                },
                None => Drained::Closed,
            },
            final(self)@ == match event {
                Some(e) => if old(self)@.accepts(e@) {
                    old(self)@.reduce(e@)
                } else {
                    old(self)@
                },
                None => old(self)@,
            },
            old(self)@.wf() ==> final(self)@.wf(),
            final(self).same_subscribers(*old(self)),
    {
        match event {
            Some(e) => if self.try_update_state(e) {
                Drained::Applied
            } else {
                Drained::Rejected
            },
            None => Drained::Closed,
        }
    }

    /// Updates the state with one event.
    pub fn update_state(&mut self, event: Event)
        requires
            old(self)@.accepts(event@),
        ensures
            final(self)@ == old(self)@.reduce(event@),
            old(self)@.wf() ==> final(self)@.wf(),
            final(self).same_subscribers(*old(self)),
    {
        proof {
            if self@.wf() {
                lemma_reduce_keeps_wf(self@, event@);
            }
        }
        match event {
            Event::Metadata(meta) => {
                let copy = meta.deep_copy();
                self.all_metadata.push(meta);
                self.new_metadata.push(copy);
                assert(views_of(self.all_metadata@) =~= views_of(old(self).all_metadata@).push(
                    meta@,
                ));
                assert(views_of(self.new_metadata@) =~= views_of(old(self).new_metadata@).push(
                    meta@,
                ));
            },
            Event::Spawn { id, metadata, at, fields } => {
                self.tasks.insert(id, Task { id, metadata, fields });
                self.task_stats.insert(id, TaskStats::spawned(at));
            },
            Event::Enter { id, at } => {
                if let Some(task_stats) = self.task_stats.update(id) {
                    task_stats.enter(at);
                }
                if let Some(async_op_stats) = self.async_op_stats.update(id) {
                    async_op_stats.poll_stats.enter(at);
                }
            },
            Event::Exit { id, at } => {
                if let Some(task_stats) = self.task_stats.update(id) {
                    task_stats.exit(at);
                }
                if let Some(async_op_stats) = self.async_op_stats.update(id) {
                    let _ = async_op_stats.poll_stats.exit(at);
                }
            },
            Event::Close { id, at } => {
                if let Some(task_stats) = self.task_stats.update(id) {
                    task_stats.close(at);
                }
                if let Some(resource_stats) = self.resource_stats.update(id) {
                    resource_stats.close(at);
                }
                if let Some(async_op_stats) = self.async_op_stats.update(id) {
                    async_op_stats.close(at);
                }
            },
            Event::Waker { id, op, at } => {
                if let Some(task_stats) = self.task_stats.update(id) {
                    task_stats.wake(op, at);
                }
            },
            Event::Resource { id, metadata, kind, concrete_type, at } => {
                self.resources.insert(id, Resource { id, kind, metadata, concrete_type });
                let mut stats = ResourceStats::default();
                stats.created_at = Some(at);
                self.resource_stats.insert(id, stats);
            },
            Event::ResourceOp { metadata, at, resource_id, op_name, op_type } => {
                match &op_type {
                    OpType::StateUpdate(attr_updates) => {
                        if let Some(stats) = self.resource_stats.update(resource_id) {
                            stats.apply_all(attr_updates);
                        }
                    },
                    OpType::Poll { async_op_id, task_id, readiness } => {
                        let pending = match readiness {
                            Readiness::Pending => true,
                            Readiness::Ready => false,
                        };
                        let async_op_stats = self.async_op_stats.update_or_default(*async_op_id);
                        async_op_stats.record_poll(metadata, *task_id, resource_id, pending, at);
                    },
                }
                self.resource_ops.insert(
                    metadata,
                    ResourceOp { id: metadata, metadata, resource_id, op_name, op_type },
                );
            },
            Event::AsyncResourceOp { id, source, metadata, at } => {
                self.async_ops.insert(id, AsyncOp { id, metadata, source });
                let mut stats = AsyncOpStats::default();
                stats.created_at = Some(at);
                self.async_op_stats.insert(id, stats);
            },
        }
    }

    /// Builds an instrument message from the tables: every row, or the dirty
    /// rows, whose dirty bits are then cleared.
    pub fn build_update(
        &mut self,
        now: Timestamp,
        new_metadata: Option<Vec<Metadata>>,
        updated_only: bool,
    ) -> (update: InstrumentUpdate)
        ensures
            update@ == old(self)@.update_for(
                now,
                match new_metadata {
                    Some(metadata) => Some(views_of(metadata@)),
                    None => None,
                },
                updated_only,
            ),
            final(self)@ == if updated_only {
                old(self)@.delivered()
            } else {
                old(self)@
            },
            final(self).same_subscribers(*old(self)),
    {
        InstrumentUpdate {
            now,
            new_metadata,
            task_update: TaskUpdate {
                new_tasks: self.tasks.as_proto(updated_only),
                stats_update: self.task_stats.as_proto(updated_only),
            },
            resource_update: ResourceUpdate {
                new_resources: self.resources.as_proto(updated_only),
                stats_update: self.resource_stats.as_proto(updated_only),
            },
            async_op_update: AsyncOpUpdate {
                new_async_ops: self.async_ops.as_proto(updated_only),
                stats_update: self.async_op_stats.as_proto(updated_only),
            },
            resource_op_update: ResourceOpUpdate {
                new_resource_ops: self.resource_ops.as_proto(updated_only),
            },
        }
    }

    /// The first message for a new subscriber: every row and all metadata.
    /// The tables stay as they are.
    pub fn initial_update(&mut self, now: Timestamp) -> (update: InstrumentUpdate)
        ensures
            update@ == old(self)@.initial_update(now),
            final(self)@ == old(self)@,
            final(self).same_subscribers(*old(self)),
    {
        let metadata = copy_all(&self.all_metadata);
        self.build_update(now, Some(metadata), false)
    }

    /// Admits a subscriber whose first message was sent, and drops one whose
    /// first message was not: `sent` says which. Admitting clears every dirty
    /// bit, since the subscriber has been sent every row.
    pub fn instrument_subscribed(&mut self, subscription: Watch<InstrumentUpdate>, sent: bool)
        ensures
            final(self)@ == if sent {
                old(self)@.delivered()
            } else {
                old(self)@
            },
            final(self).watchers@ == if sent {
                old(self).watchers@.push(subscription)
            } else {
                old(self).watchers@
            },
            old(self)@.wf() ==> final(self)@.wf(),
            final(self).details_watchers == old(self).details_watchers,
            final(self).publish_interval == old(self).publish_interval,
            final(self).retention == old(self).retention,
            final(self).flush_capacity == old(self).flush_capacity,
    {
        if sent {
            proof {
                if self@.wf() {
                    lemma_passes_keep_wf(self@, Timestamp { nanos: 0 }, self.retention, true);
                }
            }
            self.tasks.mark_all_clean();
            self.task_stats.mark_all_clean();
            self.resources.mark_all_clean();
            self.resource_stats.mark_all_clean();
            self.async_ops.mark_all_clean();
            self.async_op_stats.mark_all_clean();
            self.resource_ops.mark_all_clean();
            self.watchers.push(subscription);
        }
    }

    /// Adds a subscriber of the instrument stream after sending it the first
    /// message. A subscriber that does not take the message is dropped and
    /// nothing changes.
    pub fn add_instrument_subscription(
        &mut self,
        subscription: Watch<InstrumentUpdate>,
        now: Timestamp,
    )
        ensures
            ({
                ||| (final(self)@ == old(self)@.delivered() && final(self).watchers@ == old(self).watchers@.push(subscription))
                ||| (final(self)@ == old(self)@ && final(self).watchers@ == old(self).watchers@)
            }),
            old(self)@.wf() ==> final(self)@.wf(),
            final(self).details_watchers == old(self).details_watchers,
            final(self).publish_interval == old(self).publish_interval,
            final(self).retention == old(self).retention,
            final(self).flush_capacity == old(self).flush_capacity,
    {
        let update = self.initial_update(now);
        let sent = subscription.update(&update);
        self.instrument_subscribed(subscription, sent);
    }

    /// The details message of a task at `now`, or `None` for a task that has
    /// no statistics. The histogram is left out where it cannot be written.
    pub fn task_details(&self, task_id: u64, now: Timestamp) -> (details: Option<TaskDetails>)
        ensures
            match details {
                Some(d) => {
                    &&& self@.task_stats.contains_key(task_id)
                    &&& d.task_id == task_id
                    &&& d.now == now
                    &&& bytes_of(d.poll_times_histogram) == v2_encoding(
                        self@.task_stats[task_id].0.poll_times,
                    )
                },
                None => !self@.task_stats.contains_key(task_id),
            },
    {
        match self.task_stats.get(task_id) {
            Some(stats) => Some(
                TaskDetails {
                    task_id,
                    now,
                    poll_times_histogram: serialize_histogram(&stats.poll_times_histogram),
                },
            ),
            None => None,
        }
    }

    /// Admits a details subscriber whose first message was sent, behind the
    /// task's other subscribers, and drops one whose message was not.
    pub fn details_subscribed(
        &mut self,
        task_id: u64,
        subscription: Watch<TaskDetails>,
        sent: bool,
    )
        ensures
            final(self).details_watchers@ == if sent {
                old(self).details_watchers@.insert(
                    task_id,
                    final(self).details_watchers@[task_id],
                )
            } else {
                old(self).details_watchers@
            },
            sent ==> final(self).details_watchers@[task_id]@ == bucket_of(
                old(self).details_watchers@,
                task_id,
            ).push(subscription),
            final(self)@ == old(self)@,
            final(self).watchers == old(self).watchers,
            final(self).publish_interval == old(self).publish_interval,
            final(self).retention == old(self).retention,
            final(self).flush_capacity == old(self).flush_capacity,
    {
        if sent {
            let mut bucket = match self.details_watchers.remove(&task_id) {
                Some(bucket) => bucket,
                None => Vec::new(),
            };
            bucket.push(subscription);
            self.details_watchers.insert(task_id, bucket);
            assert(self.details_watchers@ =~= old(self).details_watchers@.insert(
                task_id,
                self.details_watchers@[task_id],
            ));
        }
    }

    /// Adds a watcher of a task's details after sending it the task's current
    /// details. Returns whether the task was found; a watcher of a task that
    /// is not found is dropped, and so is one that does not take the message.
    pub fn watch_task_details(
        &mut self,
        task_id: u64,
        subscription: Watch<TaskDetails>,
        now: Timestamp,
    ) -> (found: bool)
        ensures
            found == old(self)@.task_stats.contains_key(task_id),
            ({
                ||| final(self).details_watchers@ == old(self).details_watchers@
                ||| (found && final(self).details_watchers@ == old(self).details_watchers@.insert(
                    task_id,
                    final(self).details_watchers@[task_id],
                ) && final(self).details_watchers@[task_id]@ == bucket_of(
                    old(self).details_watchers@,
                    task_id,
                ).push(subscription))
            }),
            final(self)@ == old(self)@,
            final(self).watchers == old(self).watchers,
            final(self).publish_interval == old(self).publish_interval,
            final(self).retention == old(self).retention,
            final(self).flush_capacity == old(self).flush_capacity,
    {
        match self.task_details(task_id, now) {
            Some(details) => {
                let sent = subscription.update(&details);
                self.details_subscribed(task_id, subscription, sent);
                true
            },
            None => false,
        }
    }

    /// Serves a request for a task's details. For a task without statistics
    /// the request is dropped, which tells the requester that the task was
    /// not found. Otherwise the requester is handed the receiving half of a
    /// new queue, and the sending half is added to the task's watchers after
    /// it has been sent the task's current details; it is dropped if either
    /// send fails.
    pub fn add_task_detail_subscription(
        &mut self,
        watch_request: WatchRequest<TaskDetails>,
        now: Timestamp,
    )
        requires
            old(self)@.serves(watch_request.id, watch_request.buffer),
        ensures
            ({
                ||| final(self).details_watchers@ == old(self).details_watchers@
                ||| (old(self)@.task_stats.contains_key(watch_request.id) && final(self).details_watchers@ == old(self).details_watchers@.insert(
                    watch_request.id,
                    final(self).details_watchers@[watch_request.id],
                ) && final(self).details_watchers@[watch_request.id]@.drop_last() == bucket_of(
                    old(self).details_watchers@,
                    watch_request.id,
                ) && final(self).details_watchers@[watch_request.id]@.len() > 0)
            }),
            final(self)@ == old(self)@,
            final(self).watchers == old(self).watchers,
            final(self).publish_interval == old(self).publish_interval,
            final(self).retention == old(self).retention,
            final(self).flush_capacity == old(self).flush_capacity,
    {
        let WatchRequest { id, stream_sender, buffer } = watch_request;
        if self.task_stats.contains(id) {
            if let Some(subscription) = open_stream(stream_sender, buffer) {
                let ghost bucket = bucket_of(self.details_watchers@, id);
                self.watch_task_details(id, subscription, now);
                assert(bucket.push(subscription).drop_last() =~= bucket);
            }
        }
    }

    /// Serves a subscription request.
    pub fn add_subscription(&mut self, subscription: WatchKind, now: Timestamp)
        requires
            subscription matches WatchKind::TaskDetail(request) ==> old(self)@.serves(
                request.id,
                request.buffer,
            ),
        ensures
            subscription matches WatchKind::TaskDetail(request) ==> {
                &&& final(self)@ == old(self)@
                &&& final(self).watchers == old(self).watchers
                &&& ({
                    ||| final(self).details_watchers@ == old(self).details_watchers@
                    ||| (old(self)@.task_stats.contains_key(request.id) && gained_watcher(
                        old(self).details_watchers@,
                        final(self).details_watchers@,
                        request.id,
                    ))
                })
            },
            subscription matches WatchKind::Instrument(watch) ==> final(self).details_watchers
                == old(self).details_watchers && ({
                ||| (final(self)@ == old(self)@.delivered() && final(self).watchers@ == old(self).watchers@.push(watch))
                ||| (final(self)@ == old(self)@ && final(self).watchers@ == old(self).watchers@)
            }),
            old(self)@.wf() ==> final(self)@.wf(),
            final(self).publish_interval == old(self).publish_interval,
            final(self).retention == old(self).retention,
            final(self).flush_capacity == old(self).flush_capacity,
    {
        match subscription {
            WatchKind::Instrument(watch) => self.add_instrument_subscription(watch, now),
            WatchKind::TaskDetail(request) => self.add_task_detail_subscription(request, now),
        }
    }

    /// Begins an iteration of the loop: serves what ended the wait and says
    /// how the loop goes on. A publish tick asks for a publish at the end of
    /// the iteration. A flush rearms the signal; a subscription is served;
    /// neither publishes. The loop stops once the subscription channel is
    /// closed.
    pub fn on_wake(&mut self, wake: Wake, now: Timestamp) -> (step: Step)
        requires
            wake.servable_in(old(self)@),
        ensures
            step == if wake is RpcsClosed {
                Step::Terminate
            } else {
                Step::Drain { should_send: wake.sends() }
            },
            !(wake is Subscription) ==> final(self)@ == old(self)@ && final(self).same_subscribers(
                *old(self),
            ),
            wake matches Wake::Subscription(subscription) ==> {
                &&& subscription matches WatchKind::TaskDetail(request) ==> {
                    &&& final(self)@ == old(self)@
                    &&& final(self).watchers == old(self).watchers
                    &&& ({
                        ||| final(self).details_watchers@ == old(self).details_watchers@
                        ||| (old(self)@.task_stats.contains_key(request.id) && gained_watcher(
                            old(self).details_watchers@,
                            final(self).details_watchers@,
                            request.id,
                        ))
                    })
                }
                &&& subscription matches WatchKind::Instrument(watch) ==> final(self).details_watchers == old(self).details_watchers && ({
                    ||| (final(self)@ == old(self)@.delivered() && final(self).watchers@ == old(self).watchers@.push(watch))
                    ||| (final(self)@ == old(self)@ && final(self).watchers@ == old(self).watchers@)
                })
            },
            old(self)@.wf() ==> final(self)@.wf(),
            final(self).publish_interval == old(self).publish_interval,
            final(self).retention == old(self).retention,
            final(self).flush_capacity == old(self).flush_capacity,
    {
        match wake {
            Wake::PublishTick => Step::Drain { should_send: true },
            Wake::Flush => {
                self.flush_capacity.rearm();
                Step::Drain { should_send: false }
            },
            Wake::Subscription(subscription) => {
                self.add_subscription(subscription, now);
                Step::Drain { should_send: false }
            },
            Wake::RpcsClosed => Step::Terminate,
        }
    }

    /// Takes the message of a publish out of the tables: the dirty rows and
    /// the metadata registered since the last publish. Afterwards no row is
    /// dirty and no metadata waits.
    pub fn take_update(&mut self, now: Timestamp) -> (update: InstrumentUpdate)
        ensures
            update@ == old(self)@.published_update(now),
            final(self)@ == old(self)@.published(),
            final(self).new_metadata@.len() == 0,
            old(self)@.wf() ==> final(self)@.wf(),
            final(self).same_subscribers(*old(self)),
    {
        proof {
            if self@.wf() {
                lemma_passes_keep_wf(self@, now, self.retention, true);
            }
        }
        let new_metadata = if !self.new_metadata.is_empty() {
            let mut taken: Vec<Metadata> = Vec::new();
            std::mem::swap(&mut self.new_metadata, &mut taken);
            Some(taken)
        } else {
            None
        };
        assert(views_of(self.new_metadata@) =~= Seq::<MetadataView>::empty());
        self.build_update(now, new_metadata, true)
    }

    /// Sends every bucket of details watchers the current details of its
    /// task. A watcher that does not take the message is dropped, and so is a
    /// bucket that empties or whose task has no statistics any more.
    pub fn publish_details(&mut self, now: Timestamp)
        ensures
            final(self).details_watchers@.dom().subset_of(old(self).details_watchers@.dom()),
            forall|id: u64| #[trigger]
                final(self).details_watchers@.contains_key(id) ==> old(self)@.task_stats.contains_key(id) && final(self).details_watchers@[id]@.len() > 0,
            forall|id: u64| #[trigger]
                old(self).details_watchers@.contains_key(id) && old(self)@.task_stats.contains_key(
                    id,
                ) ==> exists|sent: Seq<bool>|
                    sent.len() == old(self).details_watchers@[id]@.len() && bucket_of(
                        final(self).details_watchers@,
                        id,
                    ) == kept_by(old(self).details_watchers@[id]@, sent),
            final(self)@ == old(self)@,
            final(self).watchers == old(self).watchers,
            final(self).publish_interval == old(self).publish_interval,
            final(self).retention == old(self).retention,
            final(self).flush_capacity == old(self).flush_capacity,
    {
        let ids = keys_of(&self.details_watchers);
        let mut i: usize = 0;
        while i < ids.len()
            invariant
                i <= ids.len(),
                ids@.no_duplicates(),
                ids@.to_set() == old(self).details_watchers@.dom(),
                self@ == old(self)@,
                self.watchers == old(self).watchers,
                self.publish_interval == old(self).publish_interval,
                self.retention == old(self).retention,
                self.flush_capacity == old(self).flush_capacity,
                self.details_watchers@.dom().subset_of(old(self).details_watchers@.dom()),
                forall|j: int|
                    i <= j < ids.len() ==> self.details_watchers@.contains_key(#[trigger] ids@[j])
                        && self.details_watchers@[ids@[j]] == old(self).details_watchers@[ids@[j]],
                forall|j: int|
                    #![trigger ids@[j]]
                    0 <= j < i && self.details_watchers@.contains_key(ids@[j]) ==> old(self)@.task_stats.contains_key(ids@[j]) && self.details_watchers@[ids@[j]]@.len()
                        > 0,
                forall|j: int|
                    #![trigger ids@[j]]
                    0 <= j < i && old(self)@.task_stats.contains_key(ids@[j]) ==> exists|
                        sent: Seq<bool>,
                    |
                        sent.len() == old(self).details_watchers@[ids@[j]]@.len() && bucket_of(
                            self.details_watchers@,
                            ids@[j],
                        ) == kept_by(old(self).details_watchers@[ids@[j]]@, sent),
            decreases ids.len() - i,
        {
            let id = ids[i];
            let ghost before = self.details_watchers@;
            assert(self.details_watchers@.contains_key(ids@[i as int]));
            let details = self.task_details(id, now);
            let bucket = self.details_watchers.remove(&id);
            match bucket {
                Some(watchers) => {
                    match details {
                        Some(message) => {
                            let kept = retain_sent(watchers, &message);
                            if !kept.is_empty() {
                                self.details_watchers.insert(id, kept);
                            }
                            assert(bucket_of(self.details_watchers@, id) == kept@);
                        },
                        None => {},
                    }
                },
                None => {},
            }
            proof {
                assert forall|j: int| i + 1 <= j < ids.len() implies self.details_watchers@.contains_key(
                    #[trigger] ids@[j],
                ) && self.details_watchers@[ids@[j]] == old(self).details_watchers@[ids@[j]] by {
                    assert(ids@[j] != ids@[i as int]);
                    assert(before.contains_key(ids@[j]));
                }
                assert forall|j: int|
                    #![trigger ids@[j]]
                    0 <= j < i + 1 && self.details_watchers@.contains_key(ids@[j]) implies old(self)@.task_stats.contains_key(ids@[j]) && self.details_watchers@[ids@[j]]@.len()
                        > 0 by {
                    if j < i {
                        assert(ids@[j] != ids@[i as int]);
                        assert(before.contains_key(ids@[j]));
                    }
                }
                assert forall|j: int|
                    #![trigger ids@[j]]
                    0 <= j < i + 1 && old(self)@.task_stats.contains_key(ids@[j]) implies exists|
                        sent: Seq<bool>,
                    |
                        sent.len() == old(self).details_watchers@[ids@[j]]@.len() && bucket_of(
                            self.details_watchers@,
                            ids@[j],
                        ) == kept_by(old(self).details_watchers@[ids@[j]]@, sent) by {
                    if j < i {
                        assert(ids@[j] != ids@[i as int]);
                        assert(bucket_of(self.details_watchers@, ids@[j]) == bucket_of(
                            before,
                            ids@[j],
                        ));
                    }
                }
            }
            i = i + 1;
        }
        proof {
            assert forall|id: u64| #[trigger]
                self.details_watchers@.contains_key(id) implies old(self)@.task_stats.contains_key(
                id,
            ) && self.details_watchers@[id]@.len() > 0 by {
                assert(ids@.to_set().contains(id));
                let j = choose|j: int| 0 <= j < ids@.len() && ids@[j] == id;
                assert(self.details_watchers@.contains_key(ids@[j]));
            }
            assert forall|id: u64| #[trigger]
                old(self).details_watchers@.contains_key(id) && old(self)@.task_stats.contains_key(
                    id,
                ) implies exists|sent: Seq<bool>|
                sent.len() == old(self).details_watchers@[id]@.len() && bucket_of(
                    self.details_watchers@,
                    id,
                ) == kept_by(old(self).details_watchers@[id]@, sent) by {
                assert(ids@.to_set().contains(id));
                let j = choose|j: int| 0 <= j < ids@.len() && ids@[j] == id;
                assert(old(self)@.task_stats.contains_key(ids@[j]));
            }
        }
    }

    /// Publishes the current state to all subscribers: the dirty rows and the
    /// new metadata to the instrument watchers, and each watched task's
    /// details to its details watchers. Watchers whose queue is full or
    /// closed are dropped.
    pub fn publish(&mut self, now: Timestamp)
        ensures
            final(self)@ == old(self)@.published(),
            !final(self)@.has_dirty_rows(),
            final(self).new_metadata@.len() == 0,
            old(self)@.wf() ==> final(self)@.wf(),
            exists|sent: Seq<bool>|
                sent.len() == old(self).watchers@.len() && final(self).watchers@ == kept_by(
                    old(self).watchers@,
                    sent,
                ),
            final(self).details_watchers@.dom().subset_of(old(self).details_watchers@.dom()),
            forall|id: u64| #[trigger]
                final(self).details_watchers@.contains_key(id) ==> old(self)@.task_stats.contains_key(id) && final(self).details_watchers@[id]@.len() > 0,
            forall|id: u64| #[trigger]
                old(self).details_watchers@.contains_key(id) && old(self)@.task_stats.contains_key(
                    id,
                ) ==> exists|sent: Seq<bool>|
                    sent.len() == old(self).details_watchers@[id]@.len() && bucket_of(
                        final(self).details_watchers@,
                        id,
                    ) == kept_by(old(self).details_watchers@[id]@, sent),
            final(self).publish_interval == old(self).publish_interval,
            final(self).retention == old(self).retention,
            final(self).flush_capacity == old(self).flush_capacity,
    {
        proof {
            law_publish_leaves_no_dirty_row(self@);
        }
        let update = self.take_update(now);
        let mut watchers: Vec<Watch<InstrumentUpdate>> = Vec::new();
        std::mem::swap(&mut self.watchers, &mut watchers);
        self.watchers = retain_sent(watchers, &update);
        self.publish_details(now);
        assert(views_of(self.new_metadata@).len() == self.new_metadata@.len());
    }

    /// Drops the rows of closed entities that are due at `now`.
    pub fn cleanup_closed(&mut self, now: Timestamp)
        ensures
            final(self)@ == old(self)@.retained(
                now,
                old(self).retention,
                old(self).watchers@.len() > 0,
            ),
            old(self)@.wf() ==> final(self)@.wf(),
            final(self).same_subscribers(*old(self)),
    {
        proof {
            if self@.wf() {
                lemma_passes_keep_wf(self@, now, self.retention, self.watchers@.len() > 0);
            }
        }
        let has_watchers = !self.watchers.is_empty();
        drop_closed(now, &mut self.tasks, &mut self.task_stats, self.retention, has_watchers);
        drop_closed(
            now,
            &mut self.resources,
            &mut self.resource_stats,
            self.retention,
            has_watchers,
        );
        drop_closed(
            now,
            &mut self.async_ops,
            &mut self.async_op_stats,
            self.retention,
            has_watchers,
        );
    }

    /// Ends one iteration of the loop after the events have been drained:
    /// publishes if the iteration was started by a publish tick and anyone is
    /// watching, then runs retention. Returns whether it published.
    pub fn finish_iteration(&mut self, should_send: bool, now: Timestamp) -> (published: bool)
        ensures
            published == (should_send && old(self).watchers@.len() > 0),
            final(self)@ == (if published {
                old(self)@.published()
            } else {
                old(self)@
            }).retained(now, old(self).retention, final(self).watchers@.len() > 0),
            old(self)@.wf() ==> final(self)@.wf(),
            !published ==> final(self).same_subscribers(*old(self)),
            published ==> exists|sent: Seq<bool>|
                sent.len() == old(self).watchers@.len() && final(self).watchers@ == kept_by(
                    old(self).watchers@,
                    sent,
                ),
            published ==> final(self).details_watchers@.dom().subset_of(
                old(self).details_watchers@.dom(),
            ),
            published ==> forall|id: u64| #[trigger]
                final(self).details_watchers@.contains_key(id) ==> old(self)@.task_stats.contains_key(id)
                    && final(self).details_watchers@[id]@.len() > 0,
            published ==> forall|id: u64| #[trigger]
                old(self).details_watchers@.contains_key(id) && old(self)@.task_stats.contains_key(
                    id,
                ) ==> exists|sent: Seq<bool>|
                    sent.len() == old(self).details_watchers@[id]@.len() && bucket_of(
                        final(self).details_watchers@,
                        id,
                    ) == kept_by(old(self).details_watchers@[id]@, sent),
            final(self).publish_interval == old(self).publish_interval,
            final(self).retention == old(self).retention,
            final(self).flush_capacity == old(self).flush_capacity,
    {
        let published = !self.watchers.is_empty() && should_send;
        if published {
            self.publish(now);
        }
        self.cleanup_closed(now);
        published
    }
}

} // verus!
