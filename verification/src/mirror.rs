//! What a subscriber reconstructs from the messages it receives, and how
//! that relates to the aggregator's own state.
use crate::entity::AsyncOp;
use crate::entity::AsyncOpStats;
use crate::entity::Resource;
use crate::entity::ResourceOp;
use crate::entity::Task;
use crate::entity::TaskStats;
use crate::event::EventView;
use crate::event::MetadataView;
use crate::resource::ResourceStats;
use crate::state::Rows;
use crate::state::State;
use crate::state::lemma_event_drops_nothing;
use crate::table::ToProto;
use crate::table::protos_of;
use crate::table::rows_of;
use crate::time::Duration;
use crate::time::Timestamp;
use crate::wire::AsyncOpStatsProto;
use crate::wire::InstrumentUpdateView;
use crate::wire::ResourceOpProtoView;
use crate::wire::ResourceStatsProtoView;
use crate::wire::TaskProtoView;
use crate::wire::TaskStatsProto;
use vstd::prelude::*;

verus! {

/// A subscriber's copy of the state: the wire form of every row it has been
/// sent, the latest for each id, and the metadata it has been sent.
pub struct Mirror {
    pub metadata: Set<MetadataView>,
    pub tasks: Map<u64, TaskProtoView>,
    pub task_stats: Map<u64, TaskStatsProto>,
    pub resources: Map<u64, Resource>,
    pub resource_stats: Map<u64, ResourceStatsProtoView>,
    pub async_ops: Map<u64, AsyncOp>,
    pub async_op_stats: Map<u64, AsyncOpStatsProto>,
    pub resource_ops: Map<u64, ResourceOpProtoView>,
}

/// Every clean row of the table is in the copy as it is in the table.
pub open spec fn in_step<T: ToProto>(
    copy: Map<u64, <T::Result as View>::V>,
    table: Rows<T::V>,
) -> bool {
    forall|id: u64| #[trigger]
        table.contains_key(id) && !table[id].1 ==> copy.contains_key(id) && copy[id]
            == T::proto_of(table[id].0)
}

/// Every row of the table is in the copy as it is in the table.
pub open spec fn agrees<T: ToProto>(
    copy: Map<u64, <T::Result as View>::V>,
    table: Rows<T::V>,
) -> bool {
    forall|id: u64| #[trigger]
        table.contains_key(id) ==> copy.contains_key(id) && copy[id] == T::proto_of(table[id].0)
}

impl Mirror {
    /// The copy of a subscriber that has received nothing.
    pub open spec fn empty() -> Mirror {
        Mirror {
            metadata: Set::empty(),
            tasks: Map::empty(),
            task_stats: Map::empty(),
            resources: Map::empty(),
            resource_stats: Map::empty(),
            async_ops: Map::empty(),
            async_op_stats: Map::empty(),
            resource_ops: Map::empty(),
        }
    }

    /// The copy after a message: its rows replace those of the same id, and
    /// its metadata is added.
    pub open spec fn received(self, update: InstrumentUpdateView) -> Mirror {
        Mirror {
            metadata: match update.new_metadata {
                Some(metadata) => self.metadata.union(metadata.to_set()),
                None => self.metadata,
            },
            tasks: self.tasks.union_prefer_right(update.new_tasks),
            task_stats: self.task_stats.union_prefer_right(update.task_stats),
            resources: self.resources.union_prefer_right(update.new_resources),
            resource_stats: self.resource_stats.union_prefer_right(update.resource_stats),
            async_ops: self.async_ops.union_prefer_right(update.new_async_ops),
            async_op_stats: self.async_op_stats.union_prefer_right(update.async_op_stats),
            resource_ops: self.resource_ops.union_prefer_right(update.new_resource_ops),
        }
    }

    /// The copy lags behind the state by no more than the next publish: it
    /// holds every clean row as the state holds it, and all metadata but what
    /// waits to be published.
    pub open spec fn follows(self, state: State) -> bool {
        &&& in_step::<Task>(self.tasks, state.tasks)
        &&& in_step::<TaskStats>(self.task_stats, state.task_stats)
        &&& in_step::<Resource>(self.resources, state.resources)
        &&& in_step::<ResourceStats>(self.resource_stats, state.resource_stats)
        &&& in_step::<AsyncOp>(self.async_ops, state.async_ops)
        &&& in_step::<AsyncOpStats>(self.async_op_stats, state.async_op_stats)
        &&& in_step::<ResourceOp>(self.resource_ops, state.resource_ops)
        &&& forall|i: int|
            0 <= i < state.all_metadata.len() - state.new_metadata.len() ==> self.metadata.contains(
                #[trigger] state.all_metadata[i],
            )
    }

    /// The copy holds every row as the state holds it, and all metadata.
    pub open spec fn mirrors(self, state: State) -> bool {
        &&& agrees::<Task>(self.tasks, state.tasks)
        &&& agrees::<TaskStats>(self.task_stats, state.task_stats)
        &&& agrees::<Resource>(self.resources, state.resources)
        &&& agrees::<ResourceStats>(self.resource_stats, state.resource_stats)
        &&& agrees::<AsyncOp>(self.async_ops, state.async_ops)
        &&& agrees::<AsyncOpStats>(self.async_op_stats, state.async_op_stats)
        &&& agrees::<ResourceOp>(self.resource_ops, state.resource_ops)
        &&& forall|i: int|
            0 <= i < state.all_metadata.len() ==> self.metadata.contains(
                #[trigger] state.all_metadata[i],
            )
    }
}

impl Mirror {
    /// The copy holds nothing that the state does not hold: no row under an
    /// id that the state's table lacks, and no metadata that the state has
    /// not registered.
    pub open spec fn within(self, state: State) -> bool {
        &&& self.tasks.dom().subset_of(state.tasks.dom())
        &&& self.task_stats.dom().subset_of(state.task_stats.dom())
        &&& self.resources.dom().subset_of(state.resources.dom())
        &&& self.resource_stats.dom().subset_of(state.resource_stats.dom())
        &&& self.async_ops.dom().subset_of(state.async_ops.dom())
        &&& self.async_op_stats.dom().subset_of(state.async_op_stats.dom())
        &&& self.resource_ops.dom().subset_of(state.resource_ops.dom())
        &&& self.metadata.subset_of(state.all_metadata.to_set())
    }

    /// The copy is the state in wire form: in every table the same ids, each
    /// with the row as the state holds it, and the same metadata.
    pub open spec fn equals(self, state: State) -> bool {
        &&& self.tasks == protos_of::<Task>(rows_of(state.tasks, false))
        &&& self.task_stats == protos_of::<TaskStats>(rows_of(state.task_stats, false))
        &&& self.resources == protos_of::<Resource>(rows_of(state.resources, false))
        &&& self.resource_stats == protos_of::<ResourceStats>(rows_of(state.resource_stats, false))
        &&& self.async_ops == protos_of::<AsyncOp>(rows_of(state.async_ops, false))
        &&& self.async_op_stats == protos_of::<AsyncOpStats>(rows_of(state.async_op_stats, false))
        &&& self.resource_ops == protos_of::<ResourceOp>(rows_of(state.resource_ops, false))
        &&& self.metadata == state.all_metadata.to_set()
    }
}

/// A copy is the state in wire form exactly when it holds every row and all
/// metadata as the state does, and nothing else.
pub proof fn law_equal_is_mirroring_within(state: State, copy: Mirror)
    ensures
        copy.equals(state) <==> copy.mirrors(state) && copy.within(state),
{
    if copy.mirrors(state) && copy.within(state) {
        assert(copy.tasks =~= protos_of::<Task>(rows_of(state.tasks, false)));
        assert(copy.task_stats =~= protos_of::<TaskStats>(rows_of(state.task_stats, false)));
        assert(copy.resources =~= protos_of::<Resource>(rows_of(state.resources, false)));
        assert(copy.resource_stats =~= protos_of::<ResourceStats>(
            rows_of(state.resource_stats, false),
        ));
        assert(copy.async_ops =~= protos_of::<AsyncOp>(rows_of(state.async_ops, false)));
        assert(copy.async_op_stats =~= protos_of::<AsyncOpStats>(
            rows_of(state.async_op_stats, false),
        ));
        assert(copy.resource_ops =~= protos_of::<ResourceOp>(rows_of(state.resource_ops, false)));
        assert forall|m: MetadataView| state.all_metadata.to_set().contains(m) implies copy.metadata.contains(
            m,
        ) by {
            let i = choose|i: int| 0 <= i < state.all_metadata.len() && state.all_metadata[i] == m;
            assert(copy.metadata.contains(state.all_metadata[i]));
        }
        assert(copy.metadata =~= state.all_metadata.to_set());
    }
    if copy.equals(state) {
        assert forall|i: int| 0 <= i < state.all_metadata.len() implies copy.metadata.contains(
            #[trigger] state.all_metadata[i],
        ) by {
            assert(state.all_metadata.to_set().contains(state.all_metadata[i]));
        }
    }
}

/// The first message makes the copy of a new subscriber the state in wire
/// form.
pub proof fn law_initial_update_equals_state(state: State, now: Timestamp)
    ensures
        Mirror::empty().received(state.initial_update(now)).equals(state),
        Mirror::empty().received(state.initial_update(now)).equals(state.delivered()),
{
    let copy = Mirror::empty().received(state.initial_update(now));
    law_initial_update_mirrors_state(state, Mirror::empty(), now);
    assert(copy.within(state));
    assert(copy.within(state.delivered()));
    law_equal_is_mirroring_within(state, copy);
    law_equal_is_mirroring_within(state.delivered(), copy);
}

/// An event takes nothing away, so a copy that holds nothing but what the
/// state holds still does after it.
pub proof fn law_event_keeps_mirror_within(state: State, copy: Mirror, event: EventView)
    requires
        copy.within(state),
    ensures
        copy.within(state.reduce(event)),
{
    lemma_event_drops_nothing(state, event);
    let next = state.reduce(event);
    assert forall|m: MetadataView| copy.metadata.contains(m) implies next.all_metadata.to_set().contains(
        m,
    ) by {
        assert(state.all_metadata.to_set().contains(m));
        let i = choose|i: int| 0 <= i < state.all_metadata.len() && state.all_metadata[i] == m;
        assert(next.all_metadata[i] == m);
    }
}

/// A subscriber that started from the first message and has received every
/// publish since holds, after a publish, exactly what the aggregator holds:
/// the same rows and the same metadata, no less and no more. This is so for
/// as long as retention has dropped no row in between.
pub proof fn law_publish_makes_mirror_equal(state: State, copy: Mirror, now: Timestamp)
    requires
        state.wf(),
        copy.follows(state),
        copy.within(state),
    ensures
        copy.received(state.published_update(now)).equals(state.published()),
        copy.received(state.published_update(now)).within(state.published()),
{
    let after = copy.received(state.published_update(now));
    law_publish_completes_mirror(state, copy, now);
    assert forall|m: MetadataView| after.metadata.contains(m) implies state.published().all_metadata.to_set().contains(
        m,
    ) by {
        if !copy.metadata.contains(m) {
            assert(state.new_metadata.to_set().contains(m));
            let i = choose|i: int| 0 <= i < state.new_metadata.len() && state.new_metadata[i] == m;
            let waiting = state.all_metadata.len() - state.new_metadata.len();
            assert(state.all_metadata[waiting + i] == m);
        }
    }
    assert(after.within(state.published()));
    law_equal_is_mirroring_within(state.published(), after);
}

/// The first message gives a subscriber every row and all metadata, whatever
/// it held before.
pub proof fn law_initial_update_mirrors_state(state: State, before: Mirror, now: Timestamp)
    ensures
        before.received(state.initial_update(now)).mirrors(state),
        before.received(state.initial_update(now)).mirrors(state.delivered()),
{
    let after = before.received(state.initial_update(now));
    assert forall|i: int| 0 <= i < state.all_metadata.len() implies after.metadata.contains(
        #[trigger] state.all_metadata[i],
    ) by {
        assert(state.all_metadata.to_set().contains(state.all_metadata[i]));
    }
}

/// A copy that mirrors the state also follows it.
pub proof fn law_mirror_follows(state: State, copy: Mirror)
    requires
        copy.mirrors(state),
    ensures
        copy.follows(state),
{
}

/// An event leaves a copy following the state: whatever row it changes, it
/// marks dirty, and the metadata it registers waits for the next publish.
pub proof fn law_event_keeps_mirror_following(state: State, copy: Mirror, event: EventView)
    requires
        state.wf(),
        copy.follows(state),
    ensures
        copy.follows(state.reduce(event)),
{
}

/// A publish brings a copy that follows the state up to date: a subscriber
/// that has received the first message and every publish since holds exactly
/// what the aggregator holds.
pub proof fn law_publish_completes_mirror(state: State, copy: Mirror, now: Timestamp)
    requires
        state.wf(),
        copy.follows(state),
    ensures
        copy.received(state.published_update(now)).mirrors(state.published()),
{
    let update = state.published_update(now);
    let after = copy.received(update);
    assert forall|i: int| 0 <= i < state.all_metadata.len() implies after.metadata.contains(
        #[trigger] state.all_metadata[i],
    ) by {
        let waiting = state.all_metadata.len() - state.new_metadata.len();
        if i >= waiting {
            assert(state.new_metadata[i - waiting] == state.all_metadata[i]);
            assert(state.new_metadata.to_set().contains(state.new_metadata[i - waiting]));
        }
    }
}

/// A retention pass takes rows away and changes none, so a copy that follows
/// or mirrors the state still does; it keeps the rows that were dropped.
pub proof fn law_retention_keeps_mirror(
    state: State,
    copy: Mirror,
    now: Timestamp,
    retention: Duration,
    has_watchers: bool,
)
    ensures
        copy.follows(state) ==> copy.follows(state.retained(now, retention, has_watchers)),
        copy.mirrors(state) ==> copy.mirrors(state.retained(now, retention, has_watchers)),
{
}

} // verus!
