//! The aggregator's state as a mathematical value, and what one event does
//! to it.
use crate::entity::AsyncOp;
use crate::entity::AsyncOpStats;
use crate::entity::Resource;
use crate::entity::ResourceOp;
use crate::entity::ResourceOpView;
use crate::entity::Task;
use crate::entity::TaskStats;
use crate::entity::TaskStatsView;
use crate::entity::TaskView;
use crate::event::EventView;
use crate::event::MetadataView;
use crate::event::OpTypeView;
use crate::event::Readiness;
use crate::resource::ResourceStats;
use crate::resource::ResourceStatsView;
use crate::resource::accepts_updates;
use crate::resource::lemma_updates_keep_names_distinct;
use crate::retention::retained_entities;
use crate::retention::retained_stats;
use crate::table::all_clean;
use crate::table::dirty_ids;
use crate::table::protos_of;
use crate::table::rows_of;
use crate::time::Duration;
use crate::time::Timestamp;
use crate::watch::valid_buffer;
use crate::wire::InstrumentUpdateView;
use vstd::prelude::*;

verus! {

/// A table as a map from id to the row's view and its dirty bit.
pub type Rows<V> = Map<u64, (V, bool)>;

/// Everything the aggregator knows about the instrumented program.
pub struct State {
    pub all_metadata: Seq<MetadataView>,
    pub new_metadata: Seq<MetadataView>,
    pub tasks: Rows<TaskView>,
    pub task_stats: Rows<TaskStatsView>,
    pub resources: Rows<Resource>,
    pub resource_stats: Rows<ResourceStatsView>,
    pub async_ops: Rows<AsyncOp>,
    pub async_op_stats: Rows<AsyncOpStats>,
    pub resource_ops: Rows<ResourceOpView>,
}

/// The table after the row under `id`, if there is one, was replaced by
/// `row`; the row is dirty afterwards.
pub open spec fn touched<V>(table: Rows<V>, id: u64, row: V) -> Rows<V> {
    if table.contains_key(id) {
        table.insert(id, (row, true))
    } else {
        table
    }
}

/// The statistics of an async operation as a poll finds them: those in the
/// table, or fresh ones.
pub open spec fn async_op_stats_or_fresh(table: Rows<AsyncOpStats>, id: u64) -> AsyncOpStats {
    if table.contains_key(id) {
        table[id].0
    } else {
        AsyncOpStats::fresh()
    }
}

impl State {
    /// The state of an aggregator that has seen no event.
    pub open spec fn empty() -> State {
        State {
            all_metadata: Seq::empty(),
            new_metadata: Seq::empty(),
            tasks: Map::empty(),
            task_stats: Map::empty(),
            resources: Map::empty(),
            resource_stats: Map::empty(),
            async_ops: Map::empty(),
            async_op_stats: Map::empty(),
            resource_ops: Map::empty(),
        }
    }

    /// What always holds of the state: every identity row has a statistics
    /// row, no resource has two attributes of one name, and the metadata not
    /// yet published is the tail of all metadata.
    pub open spec fn wf(self) -> bool {
        &&& self.tasks.dom().subset_of(self.task_stats.dom())
        &&& self.resources.dom().subset_of(self.resource_stats.dom())
        &&& self.async_ops.dom().subset_of(self.async_op_stats.dom())
        &&& forall|id: u64| #[trigger]
            self.resource_stats.contains_key(id) ==> self.resource_stats[id].0.wf()
        &&& self.new_metadata.len() <= self.all_metadata.len()
        &&& self.new_metadata == self.all_metadata.subrange(
            self.all_metadata.len() - self.new_metadata.len(),
            self.all_metadata.len() as int,
        )
    }

    /// Whether a request for the details of task `id` can be served. For a
    /// task that has statistics a queue of `buffer` slots is made, so the
    /// size must be one with which a queue can be made. A request for any
    /// other task is dropped, whatever it asks for.
    pub open spec fn serves(self, id: u64, buffer: usize) -> bool {
        self.task_stats.contains_key(id) ==> valid_buffer(buffer)
    }

    /// Whether `event` can be reduced: no counter, duration or attribute
    /// leaves its range, the histogram has room, and a state update fits the
    /// kinds of the attributes that it changes.
    pub open spec fn accepts(self, event: EventView) -> bool {
        match event {
            EventView::Enter { id, at } => {
                &&& self.task_stats.contains_key(id) ==> self.task_stats[id].0.can_enter()
                &&& self.async_op_stats.contains_key(id)
                    ==> self.async_op_stats[id].0.poll_stats.can_enter()
            },
            EventView::Exit { id, at } => {
                &&& self.task_stats.contains_key(id) ==> self.task_stats[id].0.can_exit(at)
                &&& self.async_op_stats.contains_key(id)
                    ==> self.async_op_stats[id].0.poll_stats.can_exit(at)
            },
            EventView::Waker { id, op, at } => self.task_stats.contains_key(id)
                ==> self.task_stats[id].0.can_wake(op),
            EventView::ResourceOp { resource_id, op_type, .. } => match op_type {
                OpTypeView::StateUpdate(updates) => self.resource_stats.contains_key(resource_id)
                    ==> accepts_updates(self.resource_stats[resource_id].0.attributes, updates),
                OpTypeView::Poll { async_op_id, .. } => async_op_stats_or_fresh(
                    self.async_op_stats,
                    async_op_id,
                ).poll_stats.polls < u64::MAX,
            },
            _ => true,
        }
    }

    /// The state after `event`.
    pub open spec fn reduce(self, event: EventView) -> State {
        match event {
            EventView::Metadata(meta) => State {
                all_metadata: self.all_metadata.push(meta),
                new_metadata: self.new_metadata.push(meta),
                ..self
            },
            EventView::Spawn { id, metadata, at, fields } => State {
                tasks: self.tasks.insert(id, (TaskView { id, metadata, fields }, true)),
                task_stats: self.task_stats.insert(id, (TaskStatsView::spawned(at), true)),
                ..self
            },
            EventView::Enter { id, at } => State {
                task_stats: touched(self.task_stats, id, self.task_stats[id].0.entered(at)),
                async_op_stats: touched(
                    self.async_op_stats,
                    id,
                    self.async_op_stats[id].0.entered(at),
                ),
                ..self
            },
            EventView::Exit { id, at } => State {
                task_stats: touched(self.task_stats, id, self.task_stats[id].0.exited(at)),
                async_op_stats: touched(
                    self.async_op_stats,
                    id,
                    self.async_op_stats[id].0.exited(at),
                ),
                ..self
            },
            EventView::Close { id, at } => State {
                task_stats: touched(self.task_stats, id, self.task_stats[id].0.closed(at)),
                resource_stats: touched(
                    self.resource_stats,
                    id,
                    self.resource_stats[id].0.closed(at),
                ),
                async_op_stats: touched(
                    self.async_op_stats,
                    id,
                    self.async_op_stats[id].0.closed(at),
                ),
                ..self
            },
            EventView::Waker { id, op, at } => State {
                task_stats: touched(self.task_stats, id, self.task_stats[id].0.woken(op, at)),
                ..self
            },
            EventView::Resource { id, metadata, kind, concrete_type, at } => State {
                resources: self.resources.insert(
                    id,
                    (Resource { id, metadata, concrete_type, kind }, true),
                ),
                resource_stats: self.resource_stats.insert(
                    id,
                    (ResourceStatsView { created_at: Some(at), ..ResourceStatsView::fresh() }, true),
                ),
                ..self
            },
            EventView::ResourceOp { metadata, at, resource_id, op_name, op_type } => {
                let op = ResourceOpView { id: metadata, metadata, resource_id, op_name, op_type };
                let resource_ops = self.resource_ops.insert(metadata, (op, true));
                match op_type {
                    OpTypeView::StateUpdate(updates) => State {
                        resource_stats: touched(
                            self.resource_stats,
                            resource_id,
                            self.resource_stats[resource_id].0.state_updated(updates),
                        ),
                        resource_ops,
                        ..self
                    },
                    OpTypeView::Poll { async_op_id, task_id, readiness } => State {
                        async_op_stats: self.async_op_stats.insert(
                            async_op_id,
                            (
                                async_op_stats_or_fresh(self.async_op_stats, async_op_id).polled(
                                    metadata,
                                    task_id,
                                    resource_id,
                                    readiness == Readiness::Pending,
                                    at,
                                ),
                                true,
                            ),
                        ),
                        resource_ops,
                        ..self
                    },
                }
            },
            EventView::AsyncResourceOp { id, source, metadata, at } => State {
                async_ops: self.async_ops.insert(id, (AsyncOp { id, metadata, source }, true)),
                async_op_stats: self.async_op_stats.insert(id, (AsyncOpStats::created(at), true)),
                ..self
            },
        }
    }
}

impl State {
    /// The state with every dirty bit cleared.
    pub open spec fn delivered(self) -> State {
        State {
            tasks: all_clean(self.tasks),
            task_stats: all_clean(self.task_stats),
            resources: all_clean(self.resources),
            resource_stats: all_clean(self.resource_stats),
            async_ops: all_clean(self.async_ops),
            async_op_stats: all_clean(self.async_op_stats),
            resource_ops: all_clean(self.resource_ops),
            ..self
        }
    }

    /// The state after a publish: no row is dirty, and no metadata waits to
    /// be published.
    pub open spec fn published(self) -> State {
        State { new_metadata: Seq::empty(), ..self.delivered() }
    }

    /// Whether any row of any table is dirty.
    pub open spec fn has_dirty_rows(self) -> bool {
        ||| dirty_ids(self.tasks).len() > 0
        ||| dirty_ids(self.task_stats).len() > 0
        ||| dirty_ids(self.resources).len() > 0
        ||| dirty_ids(self.resource_stats).len() > 0
        ||| dirty_ids(self.async_ops).len() > 0
        ||| dirty_ids(self.async_op_stats).len() > 0
        ||| dirty_ids(self.resource_ops).len() > 0
    }

    /// The rows that an instrument message carries, in wire form: all rows, or
    /// only the dirty ones.
    pub open spec fn update_for(
        self,
        now: Timestamp,
        new_metadata: Option<Seq<MetadataView>>,
        updated_only: bool,
    ) -> InstrumentUpdateView {
        InstrumentUpdateView {
            now,
            new_metadata,
            new_tasks: protos_of::<Task>(rows_of(self.tasks, updated_only)),
            task_stats: protos_of::<TaskStats>(rows_of(self.task_stats, updated_only)),
            new_resources: protos_of::<Resource>(rows_of(self.resources, updated_only)),
            resource_stats: protos_of::<ResourceStats>(rows_of(self.resource_stats, updated_only)),
            new_async_ops: protos_of::<AsyncOp>(rows_of(self.async_ops, updated_only)),
            async_op_stats: protos_of::<AsyncOpStats>(rows_of(self.async_op_stats, updated_only)),
            new_resource_ops: protos_of::<ResourceOp>(rows_of(self.resource_ops, updated_only)),
        }
    }

    /// The first message for a new subscriber: every row and all metadata.
    pub open spec fn initial_update(self, now: Timestamp) -> InstrumentUpdateView {
        self.update_for(now, Some(self.all_metadata), false)
    }

    /// The message of a publish: the dirty rows, and the new metadata if
    /// there is any.
    pub open spec fn published_update(self, now: Timestamp) -> InstrumentUpdateView {
        self.update_for(
            now,
            if self.new_metadata.len() > 0 {
                Some(self.new_metadata)
            } else {
                None
            },
            true,
        )
    }

    /// The state after a retention pass at `now`.
    pub open spec fn retained(self, now: Timestamp, retention: Duration, has_watchers: bool) -> State {
        let task_stats = retained_stats::<TaskStats>(self.task_stats, now, retention, has_watchers);
        let resource_stats = retained_stats::<ResourceStats>(
            self.resource_stats,
            now,
            retention,
            has_watchers,
        );
        let async_op_stats = retained_stats::<AsyncOpStats>(
            self.async_op_stats,
            now,
            retention,
            has_watchers,
        );
        State {
            tasks: retained_entities(self.tasks, task_stats),
            task_stats,
            resources: retained_entities(self.resources, resource_stats),
            resource_stats,
            async_ops: retained_entities(self.async_ops, async_op_stats),
            async_op_stats,
            ..self
        }
    }
}

/// Clearing dirty bits, publishing and retention keep the state well formed.
pub proof fn lemma_passes_keep_wf(
    state: State,
    now: Timestamp,
    retention: Duration,
    has_watchers: bool,
)
    requires
        state.wf(),
    ensures
        state.delivered().wf(),
        state.published().wf(),
        state.retained(now, retention, has_watchers).wf(),
{
    assert(state.published().new_metadata =~= state.all_metadata.subrange(
        state.all_metadata.len() as int,
        state.all_metadata.len() as int,
    ));
}

/// What one event makes of the statistics of task `id`.
pub open spec fn task_stats_after(row: TaskStatsView, event: EventView, id: u64) -> TaskStatsView {
    match event {
        EventView::Spawn { id: spawned, at, .. } => if spawned == id {
            TaskStatsView::spawned(at)
        } else {
            row
        },
        EventView::Enter { id: entered, at } => if entered == id {
            row.entered(at)
        } else {
            row
        },
        EventView::Exit { id: exited, at } => if exited == id {
            row.exited(at)
        } else {
            row
        },
        EventView::Close { id: closed, at } => if closed == id {
            row.closed(at)
        } else {
            row
        },
        EventView::Waker { id: woken, op, at } => if woken == id {
            row.woken(op, at)
        } else {
            row
        },
        _ => row,
    }
}

/// What one event makes of the statistics of resource `id`.
pub open spec fn resource_stats_after(
    row: ResourceStatsView,
    event: EventView,
    id: u64,
) -> ResourceStatsView {
    match event {
        EventView::Close { id: closed, at } => if closed == id {
            row.closed(at)
        } else {
            row
        },
        EventView::Resource { id: created, at, .. } => if created == id {
            ResourceStatsView { created_at: Some(at), ..ResourceStatsView::fresh() }
        } else {
            row
        },
        EventView::ResourceOp { resource_id, op_type: OpTypeView::StateUpdate(updates), .. } => {
            if resource_id == id {
                row.state_updated(updates)
            } else {
                row
            }
        },
        _ => row,
    }
}

/// What one event makes of the statistics of async operation `id`.
pub open spec fn async_op_stats_after(row: AsyncOpStats, event: EventView, id: u64) -> AsyncOpStats {
    match event {
        EventView::Enter { id: entered, at } => if entered == id {
            row.entered(at)
        } else {
            row
        },
        EventView::Exit { id: exited, at } => if exited == id {
            row.exited(at)
        } else {
            row
        },
        EventView::Close { id: closed, at } => if closed == id {
            row.closed(at)
        } else {
            row
        },
        EventView::ResourceOp {
            metadata,
            at,
            resource_id,
            op_type: OpTypeView::Poll { async_op_id, task_id, readiness },
            ..
        } => if async_op_id == id {
            row.polled(metadata, task_id, resource_id, readiness == Readiness::Pending, at)
        } else {
            row
        },
        EventView::AsyncResourceOp { id: created, at, .. } => if created == id {
            AsyncOpStats::created(at)
        } else {
            row
        },
        _ => row,
    }
}

/// No event takes a statistics row away, and the row that an event leaves
/// is what the event makes of the row that was there.
pub proof fn lemma_rows_after_event(state: State, event: EventView, id: u64)
    ensures
        state.task_stats.contains_key(id) ==> state.reduce(event).task_stats.contains_key(id)
            && state.reduce(event).task_stats[id].0 == task_stats_after(
            state.task_stats[id].0,
            event,
            id,
        ),
        state.resource_stats.contains_key(id) ==> state.reduce(event).resource_stats.contains_key(
            id,
        ) && state.reduce(event).resource_stats[id].0 == resource_stats_after(
            state.resource_stats[id].0,
            event,
            id,
        ),
        state.async_op_stats.contains_key(id) ==> state.reduce(event).async_op_stats.contains_key(
            id,
        ) && state.reduce(event).async_op_stats[id].0 == async_op_stats_after(
            state.async_op_stats[id].0,
            event,
            id,
        ),
{
    let next = state.reduce(event);
    match event {
        EventView::Metadata(_) => {
            assert(next.task_stats == state.task_stats);
            assert(next.resource_stats == state.resource_stats);
            assert(next.async_op_stats == state.async_op_stats);
        },
        EventView::Spawn { id: spawned, at, .. } => {
            assert(next.task_stats == state.task_stats.insert(
                spawned,
                (TaskStatsView::spawned(at), true),
            ));
            assert(next.resource_stats == state.resource_stats);
            assert(next.async_op_stats == state.async_op_stats);
        },
        EventView::Enter { id: entered, at } => {
            assert(next.task_stats == touched(
                state.task_stats,
                entered,
                state.task_stats[entered].0.entered(at),
            ));
            assert(next.async_op_stats == touched(
                state.async_op_stats,
                entered,
                state.async_op_stats[entered].0.entered(at),
            ));
            assert(next.resource_stats == state.resource_stats);
        },
        EventView::Exit { id: exited, at } => {
            assert(next.task_stats == touched(
                state.task_stats,
                exited,
                state.task_stats[exited].0.exited(at),
            ));
            assert(next.async_op_stats == touched(
                state.async_op_stats,
                exited,
                state.async_op_stats[exited].0.exited(at),
            ));
            assert(next.resource_stats == state.resource_stats);
        },
        EventView::Close { id: closed, at } => {
            assert(next.task_stats == touched(
                state.task_stats,
                closed,
                state.task_stats[closed].0.closed(at),
            ));
            assert(next.resource_stats == touched(
                state.resource_stats,
                closed,
                state.resource_stats[closed].0.closed(at),
            ));
            assert(next.async_op_stats == touched(
                state.async_op_stats,
                closed,
                state.async_op_stats[closed].0.closed(at),
            ));
        },
        EventView::Waker { id: woken, op, at } => {
            assert(next.task_stats == touched(
                state.task_stats,
                woken,
                state.task_stats[woken].0.woken(op, at),
            ));
            assert(next.resource_stats == state.resource_stats);
            assert(next.async_op_stats == state.async_op_stats);
        },
        EventView::Resource { id: created, at, .. } => {
            assert(next.resource_stats == state.resource_stats.insert(
                created,
                (ResourceStatsView { created_at: Some(at), ..ResourceStatsView::fresh() }, true),
            ));
            assert(next.task_stats == state.task_stats);
            assert(next.async_op_stats == state.async_op_stats);
        },
        EventView::ResourceOp { metadata, at, resource_id, op_type, .. } => {
            assert(next.task_stats == state.task_stats);
            match op_type {
                OpTypeView::StateUpdate(updates) => {
                    assert(next.resource_stats == touched(
                        state.resource_stats,
                        resource_id,
                        state.resource_stats[resource_id].0.state_updated(updates),
                    ));
                    assert(next.async_op_stats == state.async_op_stats);
                },
                OpTypeView::Poll { async_op_id, task_id, readiness } => {
                    assert(next.resource_stats == state.resource_stats);
                    assert(next.async_op_stats == state.async_op_stats.insert(
                        async_op_id,
                        (
                            async_op_stats_or_fresh(state.async_op_stats, async_op_id).polled(
                                metadata,
                                task_id,
                                resource_id,
                                readiness == Readiness::Pending,
                                at,
                            ),
                            true,
                        ),
                    ));
                },
            }
        },
        EventView::AsyncResourceOp { id: created, at, .. } => {
            assert(next.async_op_stats == state.async_op_stats.insert(
                created,
                (AsyncOpStats::created(at), true),
            ));
            assert(next.task_stats == state.task_stats);
            assert(next.resource_stats == state.resource_stats);
        },
    }
}

/// No event takes a row or a metadata away: every table holds afterwards
/// the ids that it held, and all metadata begins with what it was.
pub proof fn lemma_event_drops_nothing(state: State, event: EventView)
    ensures
        state.tasks.dom().subset_of(state.reduce(event).tasks.dom()),
        state.task_stats.dom().subset_of(state.reduce(event).task_stats.dom()),
        state.resources.dom().subset_of(state.reduce(event).resources.dom()),
        state.resource_stats.dom().subset_of(state.reduce(event).resource_stats.dom()),
        state.async_ops.dom().subset_of(state.reduce(event).async_ops.dom()),
        state.async_op_stats.dom().subset_of(state.reduce(event).async_op_stats.dom()),
        state.resource_ops.dom().subset_of(state.reduce(event).resource_ops.dom()),
        state.all_metadata.is_prefix_of(state.reduce(event).all_metadata),
{
    let next = state.reduce(event);
    assert forall|id: u64| state.task_stats.contains_key(id) implies next.task_stats.contains_key(
        id,
    ) by {
        lemma_rows_after_event(state, event, id);
    }
    assert forall|id: u64|
        state.resource_stats.contains_key(id) implies next.resource_stats.contains_key(id) by {
        lemma_rows_after_event(state, event, id);
    }
    assert forall|id: u64|
        state.async_op_stats.contains_key(id) implies next.async_op_stats.contains_key(id) by {
        lemma_rows_after_event(state, event, id);
    }
    match event {
        EventView::Metadata(meta) => {
            assert(next.all_metadata == state.all_metadata.push(meta));
        },
        EventView::Spawn { id, metadata, fields, .. } => {
            assert(next.tasks == state.tasks.insert(id, (TaskView { id, metadata, fields }, true)));
        },
        EventView::Resource { id, metadata, kind, concrete_type, .. } => {
            assert(next.resources == state.resources.insert(
                id,
                (Resource { id, metadata, concrete_type, kind }, true),
            ));
        },
        EventView::ResourceOp { metadata, resource_id, op_name, op_type, .. } => {
            let op = ResourceOpView { id: metadata, metadata, resource_id, op_name, op_type };
            match op_type {
                OpTypeView::StateUpdate(_) => {
                    assert(next.resource_ops == state.resource_ops.insert(metadata, (op, true)));
                },
                OpTypeView::Poll { .. } => {
                    assert(next.resource_ops == state.resource_ops.insert(metadata, (op, true)));
                },
            }
        },
        EventView::AsyncResourceOp { id, source, metadata, .. } => {
            assert(next.async_ops == state.async_ops.insert(
                id,
                (AsyncOp { id, metadata, source }, true),
            ));
        },
        _ => {},
    }
}

/// Reducing an event that the state accepts keeps the state well formed.
pub proof fn lemma_reduce_keeps_wf(state: State, event: EventView)
    requires
        state.wf(),
        state.accepts(event),
    ensures
        state.reduce(event).wf(),
{
    let next = state.reduce(event);
    match event {
        EventView::Metadata(meta) => {
            assert(next.new_metadata =~= next.all_metadata.subrange(
                next.all_metadata.len() - next.new_metadata.len(),
                next.all_metadata.len() as int,
            ));
        },
        EventView::ResourceOp { resource_id, op_type, .. } => {
            match op_type {
                OpTypeView::StateUpdate(updates) => {
                    if state.resource_stats.contains_key(resource_id) {
                        lemma_updates_keep_names_distinct(
                            state.resource_stats[resource_id].0.attributes,
                            updates,
                            updates.len() as int,
                        );
                    }
                },
                OpTypeView::Poll { .. } => {},
            }
        },
        _ => {},
    }
}

} // verus!
