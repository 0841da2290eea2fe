//! What holds of the aggregator's state whatever the events are.
use crate::entity::TaskStatsView;
use crate::event::EventView;
use crate::event::WakeOp;
use crate::poll::PollStats;
use crate::state::State;
use crate::state::lemma_reduce_keeps_wf;
use crate::state::lemma_rows_after_event;
use crate::table::dirty_ids;
use crate::time::Duration;
use crate::time::Timestamp;
use crate::time::clamped_nanos;
use crate::time::elapsed_between;
use vstd::prelude::*;

verus! {

/// The state after the first `n` of `events`, reduced in order.
pub open spec fn reduce_all(state: State, events: Seq<EventView>, n: int) -> State
    decreases n,
{
    if n <= 0 {
        state
    } else {
        reduce_all(state, events, n - 1).reduce(events[n - 1])
    }
}

/// Whether each of `events` can be reduced in its turn.
pub open spec fn accepts_all(state: State, events: Seq<EventView>) -> bool {
    forall|n: int|
        0 <= n < events.len() ==> (#[trigger] reduce_all(state, events, n)).accepts(events[n])
}

/// Reducing any accepted sequence of events keeps the state well formed: in
/// particular every identity row has its statistics row.
pub proof fn law_events_keep_state_well_formed(state: State, events: Seq<EventView>, n: int)
    requires
        state.wf(),
        accepts_all(state, events),
        0 <= n <= events.len(),
    ensures
        reduce_all(state, events, n).wf(),
        reduce_all(state, events, n).tasks.dom().subset_of(
            reduce_all(state, events, n).task_stats.dom(),
        ),
        reduce_all(state, events, n).resources.dom().subset_of(
            reduce_all(state, events, n).resource_stats.dom(),
        ),
        reduce_all(state, events, n).async_ops.dom().subset_of(
            reduce_all(state, events, n).async_op_stats.dom(),
        ),
    decreases n,
{
    if n > 0 {
        law_events_keep_state_well_formed(state, events, n - 1);
        lemma_reduce_keeps_wf(reduce_all(state, events, n - 1), events[n - 1]);
    }
}

/// The poll depth never goes below zero: an exit at depth zero leaves the
/// counters as they are, and any other exit lowers the depth by one.
pub proof fn law_poll_depth_never_negative(stats: PollStats, at: Timestamp)
    ensures
        stats.exited(at).current_polls >= 0,
        stats.current_polls == 0 ==> stats.exited(at) == stats,
        stats.current_polls > 0 ==> stats.exited(at).current_polls == stats.current_polls - 1,
{
}

/// After any sequence of events the poll depth of every task and of every
/// async operation is at least zero.
pub proof fn law_poll_depth_after_events(state: State, events: Seq<EventView>, id: u64)
    ensures
        reduce_all(state, events, events.len() as int).task_stats.contains_key(id) ==> reduce_all(
            state,
            events,
            events.len() as int,
        ).task_stats[id].0.poll_stats.current_polls >= 0,
        reduce_all(state, events, events.len() as int).async_op_stats.contains_key(id)
            ==> reduce_all(
            state,
            events,
            events.len() as int,
        ).async_op_stats[id].0.poll_stats.current_polls >= 0,
{
}

/// An enter at depth zero followed by its exit is one outermost poll: it adds
/// the time between the two to `busy_time`, counts one poll, and records
/// that time, in nanoseconds clamped to `u64`, as one sample.
pub proof fn law_outermost_poll_is_measured(
    state: State,
    id: u64,
    enter_at: Timestamp,
    exit_at: Timestamp,
)
    requires
        state.task_stats.contains_key(id),
        state.task_stats[id].0.poll_stats.current_polls == 0,
        enter_at.nanos <= exit_at.nanos,
        state.accepts(EventView::Enter { id, at: enter_at }),
        state.reduce(EventView::Enter { id, at: enter_at }).accepts(
            EventView::Exit { id, at: exit_at },
        ),
    ensures
        ({
            let before = state.task_stats[id].0;
            let after = state.reduce(EventView::Enter { id, at: enter_at }).reduce(
                EventView::Exit { id, at: exit_at },
            ).task_stats[id].0;
            &&& after.poll_stats.busy_time.nanos == before.poll_stats.busy_time.nanos + (
            exit_at.nanos - enter_at.nanos)
            &&& after.poll_times == before.poll_times.insert(
                clamped_nanos(Duration { nanos: (exit_at.nanos - enter_at.nanos) as u128 }),
            )
            &&& after.poll_stats.polls == before.poll_stats.polls + 1
            &&& after.poll_stats.current_polls == 0
            &&& after.poll_stats.last_poll_ended == Some(exit_at)
        }),
{
    let entered = state.reduce(EventView::Enter { id, at: enter_at });
    lemma_rows_after_event(state, EventView::Enter { id, at: enter_at }, id);
    lemma_rows_after_event(entered, EventView::Exit { id, at: exit_at }, id);
}

/// The same for an async operation, which has no histogram.
pub proof fn law_outermost_poll_of_async_op(
    state: State,
    id: u64,
    enter_at: Timestamp,
    exit_at: Timestamp,
)
    requires
        state.async_op_stats.contains_key(id),
        state.async_op_stats[id].0.poll_stats.current_polls == 0,
        enter_at.nanos <= exit_at.nanos,
        state.accepts(EventView::Enter { id, at: enter_at }),
        state.reduce(EventView::Enter { id, at: enter_at }).accepts(
            EventView::Exit { id, at: exit_at },
        ),
    ensures
        ({
            let before = state.async_op_stats[id].0;
            let after = state.reduce(EventView::Enter { id, at: enter_at }).reduce(
                EventView::Exit { id, at: exit_at },
            ).async_op_stats[id].0;
            &&& after.poll_stats.busy_time.nanos == before.poll_stats.busy_time.nanos + (
            exit_at.nanos - enter_at.nanos)
            &&& after.poll_stats.polls == before.poll_stats.polls + 1
            &&& after.poll_stats.current_polls == 0
        }),
{
    let entered = state.reduce(EventView::Enter { id, at: enter_at });
    lemma_rows_after_event(state, EventView::Enter { id, at: enter_at }, id);
    lemma_rows_after_event(entered, EventView::Exit { id, at: exit_at }, id);
}

/// A nested enter and exit change neither `busy_time` nor the histogram.
pub proof fn law_nested_poll_is_not_measured(stats: TaskStatsView, at: Timestamp)
    requires
        stats.poll_stats.current_polls > 1,
    ensures
        stats.exited(at).poll_stats.busy_time == stats.poll_stats.busy_time,
        stats.exited(at).poll_times == stats.poll_times,
        stats.entered(at).poll_stats.busy_time == stats.poll_stats.busy_time,
        stats.entered(at).poll_times == stats.poll_times,
{
}

/// Whether an event creates the task `id` anew.
pub open spec fn spawns(event: EventView, id: u64) -> bool {
    event matches EventView::Spawn { id: spawned, .. } && spawned == id
}

/// Whether an event creates the async operation `id` anew.
pub open spec fn creates_async_op(event: EventView, id: u64) -> bool {
    event matches EventView::AsyncResourceOp { id: created, .. } && created == id
}

/// Once a task's `first_poll` is set, no event changes it for as long as the
/// task is not spawned anew.
pub proof fn law_first_poll_of_task_is_set_once(state: State, event: EventView, id: u64)
    requires
        state.task_stats.contains_key(id),
        state.task_stats[id].0.poll_stats.first_poll is Some,
        !spawns(event, id),
    ensures
        state.reduce(event).task_stats.contains_key(id),
        state.reduce(event).task_stats[id].0.poll_stats.first_poll
            == state.task_stats[id].0.poll_stats.first_poll,
{
    lemma_rows_after_event(state, event, id);
}

/// Once an async operation's `first_poll` is set, no event changes it for as
/// long as the operation is not created anew.
pub proof fn law_first_poll_of_async_op_is_set_once(state: State, event: EventView, id: u64)
    requires
        state.async_op_stats.contains_key(id),
        state.async_op_stats[id].0.poll_stats.first_poll is Some,
        !creates_async_op(event, id),
    ensures
        state.reduce(event).async_op_stats.contains_key(id),
        state.reduce(event).async_op_stats[id].0.poll_stats.first_poll
            == state.async_op_stats[id].0.poll_stats.first_poll,
{
    lemma_rows_after_event(state, event, id);
}

/// Whether an event creates the resource `id` anew.
pub open spec fn creates_resource(event: EventView, id: u64) -> bool {
    event matches EventView::Resource { id: created, .. } && created == id
}

/// Once a row's time of closing is set, no event changes or clears it for as
/// long as the entity is not created anew: a second close leaves the first.
pub proof fn law_closed_at_is_set_once(state: State, event: EventView, id: u64)
    ensures
        state.task_stats.contains_key(id) && state.task_stats[id].0.closed_at is Some && !spawns(
            event,
            id,
        ) ==> state.reduce(event).task_stats.contains_key(id) && state.reduce(
            event,
        ).task_stats[id].0.closed_at == state.task_stats[id].0.closed_at,
        state.resource_stats.contains_key(id) && state.resource_stats[id].0.closed_at is Some
            && !creates_resource(event, id) ==> state.reduce(event).resource_stats.contains_key(id)
            && state.reduce(event).resource_stats[id].0.closed_at
            == state.resource_stats[id].0.closed_at,
        state.async_op_stats.contains_key(id) && state.async_op_stats[id].0.closed_at is Some
            && !creates_async_op(event, id) ==> state.reduce(event).async_op_stats.contains_key(id)
            && state.reduce(event).async_op_stats[id].0.closed_at
            == state.async_op_stats[id].0.closed_at,
{
    lemma_rows_after_event(state, event, id);
}

/// A close sets the time of closing of a row that is open, in each table
/// that holds the id.
pub proof fn law_close_sets_closed_at(state: State, id: u64, at: Timestamp)
    ensures
        state.task_stats.contains_key(id) && state.task_stats[id].0.closed_at is None
            ==> state.reduce(EventView::Close { id, at }).task_stats[id].0.closed_at == Some(at),
        state.resource_stats.contains_key(id) && state.resource_stats[id].0.closed_at is None
            ==> state.reduce(EventView::Close { id, at }).resource_stats[id].0.closed_at == Some(
            at,
        ),
        state.async_op_stats.contains_key(id) && state.async_op_stats[id].0.closed_at is None
            ==> state.reduce(EventView::Close { id, at }).async_op_stats[id].0.closed_at == Some(
            at,
        ),
{
    lemma_rows_after_event(state, EventView::Close { id, at }, id);
}

/// An enter that the state accepts raises the poll depth of the task and of
/// the async operation of that id by one. An exit lowers a depth above zero
/// by one, and leaves a row at depth zero as it is but for its dirty bit.
pub proof fn law_enter_and_exit_move_the_depth(state: State, id: u64, at: Timestamp)
    ensures
        state.accepts(EventView::Enter { id, at }) && state.task_stats.contains_key(id)
            ==> state.reduce(EventView::Enter { id, at }).task_stats[id].0.poll_stats.current_polls
            == state.task_stats[id].0.poll_stats.current_polls + 1,
        state.accepts(EventView::Enter { id, at }) && state.async_op_stats.contains_key(id)
            ==> state.reduce(
            EventView::Enter { id, at },
        ).async_op_stats[id].0.poll_stats.current_polls
            == state.async_op_stats[id].0.poll_stats.current_polls + 1,
        state.task_stats.contains_key(id) ==> state.reduce(
            EventView::Exit { id, at },
        ).task_stats[id].0.poll_stats.current_polls == if state.task_stats[id].0.poll_stats.current_polls
            > 0 {
            state.task_stats[id].0.poll_stats.current_polls - 1
        } else {
            0
        },
        state.async_op_stats.contains_key(id) ==> state.reduce(
            EventView::Exit { id, at },
        ).async_op_stats[id].0.poll_stats.current_polls
            == if state.async_op_stats[id].0.poll_stats.current_polls > 0 {
            state.async_op_stats[id].0.poll_stats.current_polls - 1
        } else {
            0
        },
        state.task_stats.contains_key(id) && state.task_stats[id].0.poll_stats.current_polls == 0
            ==> state.reduce(EventView::Exit { id, at }).task_stats[id].0 == state.task_stats[id].0,
        state.async_op_stats.contains_key(id)
            && state.async_op_stats[id].0.poll_stats.current_polls == 0 ==> state.reduce(
            EventView::Exit { id, at },
        ).async_op_stats[id].0 == state.async_op_stats[id].0,
{
    lemma_rows_after_event(state, EventView::Enter { id, at }, id);
    lemma_rows_after_event(state, EventView::Exit { id, at }, id);
}

/// An exit that ends the outermost poll of a task, whenever that poll was
/// started, adds the poll's length to `busy_time`, sets `last_poll_ended`
/// and records the length, in nanoseconds clamped to `u64`, as one sample.
pub proof fn law_exit_measures_the_poll(state: State, id: u64, started: Timestamp, at: Timestamp)
    requires
        state.task_stats.contains_key(id),
        state.task_stats[id].0.poll_stats.current_polls == 1,
        state.task_stats[id].0.poll_stats.last_poll_started == Some(started),
        started.nanos <= at.nanos,
        state.accepts(EventView::Exit { id, at }),
    ensures
        ({
            let before = state.task_stats[id].0;
            let after = state.reduce(EventView::Exit { id, at }).task_stats[id].0;
            &&& after.poll_stats.busy_time.nanos == before.poll_stats.busy_time.nanos + (at.nanos
                - started.nanos)
            &&& after.poll_stats.last_poll_ended == Some(at)
            &&& after.poll_stats.current_polls == 0
            &&& after.poll_stats.polls == before.poll_stats.polls
            &&& after.poll_stats.first_poll == before.poll_stats.first_poll
            &&& after.poll_times == before.poll_times.insert(
                clamped_nanos(Duration { nanos: (at.nanos - started.nanos) as u128 }),
            )
            &&& after.poll_times.len() == before.poll_times.len() + 1
        }),
{
    lemma_rows_after_event(state, EventView::Exit { id, at }, id);
}

/// A waker event that the state accepts moves the counters of its task as
/// the operation says: a clone counts a clone, a drop counts a drop, a wake
/// by value counts a wake and a drop, a wake by reference counts a wake; the
/// wakes set `last_wake`, the others leave it.
pub proof fn law_waker_event_counts(state: State, id: u64, op: WakeOp, at: Timestamp)
    requires
        state.task_stats.contains_key(id),
        state.accepts(EventView::Waker { id, op, at }),
    ensures
        ({
            let before = state.task_stats[id].0;
            let after = state.reduce(EventView::Waker { id, op, at }).task_stats[id].0;
            &&& after.wakes == before.wakes + if op == WakeOp::Wake || op == WakeOp::WakeByRef {
                1int
            } else {
                0int
            }
            &&& after.waker_clones == before.waker_clones + if op == WakeOp::Clone {
                1int
            } else {
                0int
            }
            &&& after.waker_drops == before.waker_drops + if op == WakeOp::Drop || op
                == WakeOp::Wake {
                1int
            } else {
                0int
            }
            &&& after.last_wake == if op == WakeOp::Wake || op == WakeOp::WakeByRef {
                Some(at)
            } else {
                before.last_wake
            }
            &&& after.live_wakers() == before.live_wakers() + match op {
                WakeOp::Clone => 1int,
                WakeOp::Drop => -1int,
                WakeOp::Wake => -1int,
                WakeOp::WakeByRef => 0int,
            }
        }),
{
    lemma_rows_after_event(state, EventView::Waker { id, op, at }, id);
}

/// After a publish no row of any table is dirty.
pub proof fn law_publish_leaves_no_dirty_row(state: State)
    ensures
        dirty_ids(state.published().tasks) == Set::<u64>::empty(),
        dirty_ids(state.published().task_stats) == Set::<u64>::empty(),
        dirty_ids(state.published().resources) == Set::<u64>::empty(),
        dirty_ids(state.published().resource_stats) == Set::<u64>::empty(),
        dirty_ids(state.published().async_ops) == Set::<u64>::empty(),
        dirty_ids(state.published().async_op_stats) == Set::<u64>::empty(),
        dirty_ids(state.published().resource_ops) == Set::<u64>::empty(),
        !state.published().has_dirty_rows(),
{
    assert(dirty_ids(state.published().tasks) =~= Set::<u64>::empty());
    assert(dirty_ids(state.published().task_stats) =~= Set::<u64>::empty());
    assert(dirty_ids(state.published().resources) =~= Set::<u64>::empty());
    assert(dirty_ids(state.published().resource_stats) =~= Set::<u64>::empty());
    assert(dirty_ids(state.published().async_ops) =~= Set::<u64>::empty());
    assert(dirty_ids(state.published().async_op_stats) =~= Set::<u64>::empty());
    assert(dirty_ids(state.published().resource_ops) =~= Set::<u64>::empty());
}

/// After a publish no metadata waits to be published, and the metadata that
/// waited is what the publish carried.
pub proof fn law_publish_empties_new_metadata(state: State, now: Timestamp)
    ensures
        state.published().new_metadata.len() == 0,
        state.published().all_metadata == state.all_metadata,
        state.new_metadata.len() > 0 ==> state.published_update(now).new_metadata == Some(
            state.new_metadata,
        ),
        state.new_metadata.len() == 0 ==> state.published_update(now).new_metadata is None,
{
}

/// After a retention pass every identity row has a statistics row, and no
/// statistics row is left that has been closed for longer than the retention.
pub proof fn law_retention_reclaims_closed_rows(
    state: State,
    now: Timestamp,
    retention: Duration,
    has_watchers: bool,
    id: u64,
)
    ensures
        ({
            let after = state.retained(now, retention, has_watchers);
            &&& after.tasks.dom().subset_of(after.task_stats.dom())
            &&& after.resources.dom().subset_of(after.resource_stats.dom())
            &&& after.async_ops.dom().subset_of(after.async_op_stats.dom())
            &&& after.task_stats.contains_key(id) ==> (after.task_stats[id].0.closed_at matches Some(
                closed,
            ) ==> elapsed_between(closed, now).nanos <= retention.nanos)
            &&& after.resource_stats.contains_key(id) ==> (
            after.resource_stats[id].0.closed_at matches Some(closed) ==> elapsed_between(
                closed,
                now,
            ).nanos <= retention.nanos)
            &&& after.async_op_stats.contains_key(id) ==> (
            after.async_op_stats[id].0.closed_at matches Some(closed) ==> elapsed_between(
                closed,
                now,
            ).nanos <= retention.nanos)
        }),
{
}

/// A retention pass keeps every row that is not closed, and while subscribers
/// are watching it keeps every dirty row that has not outlived the retention.
pub proof fn law_retention_keeps_undelivered_rows(
    state: State,
    now: Timestamp,
    retention: Duration,
    has_watchers: bool,
    id: u64,
)
    requires
        state.task_stats.contains_key(id),
        match state.task_stats[id].0.closed_at {
            Some(closed) => has_watchers && state.task_stats[id].1 && elapsed_between(
                closed,
                now,
            ).nanos <= retention.nanos,
            None => true,
        },
    ensures
        state.retained(now, retention, has_watchers).task_stats.contains_key(id),
        state.retained(now, retention, has_watchers).task_stats[id] == state.task_stats[id],
        state.tasks.contains_key(id) ==> state.retained(
            now,
            retention,
            has_watchers,
        ).tasks.contains_key(id),
{
}

/// The number of times `op` occurs among the first `n` waker operations.
pub open spec fn count_ops(ops: Seq<WakeOp>, op: WakeOp, n: int) -> nat
    decreases n,
{
    if n <= 0 {
        0
    } else {
        count_ops(ops, op, n - 1) + if ops[n - 1] == op {
            1nat
        } else {
            0nat
        }
    }
}

/// The statistics after the first `n` waker operations, all at `at`.
pub open spec fn woken_by(stats: TaskStatsView, ops: Seq<WakeOp>, at: Timestamp, n: int) -> TaskStatsView
    decreases n,
{
    if n <= 0 {
        stats
    } else {
        woken_by(stats, ops, at, n - 1).woken(ops[n - 1], at)
    }
}

/// One waker operation changes the number of live wakers as it should: a
/// clone adds one, a drop and a wake by value take one away, and a wake by
/// reference leaves it.
pub proof fn law_waker_op_moves_live_wakers(stats: TaskStatsView, op: WakeOp, at: Timestamp)
    requires
        stats.can_wake(op),
    ensures
        stats.woken(op, at).live_wakers() == stats.live_wakers() + match op {
            WakeOp::Clone => 1int,
            WakeOp::Drop => -1int,
            WakeOp::Wake => -1int,
            WakeOp::WakeByRef => 0int,
        },
        stats.woken(op, at).wakes == stats.wakes + match op {
            WakeOp::Wake => 1int,
            WakeOp::WakeByRef => 1int,
            _ => 0int,
        },
{
}

/// After any waker operations the counters are the numbers of the operations:
/// clones count the clones, drops count the drops and the wakes by value, and
/// the live wakers are the difference of the two.
pub proof fn law_waker_counts(stats: TaskStatsView, ops: Seq<WakeOp>, at: Timestamp, n: int)
    requires
        0 <= n <= ops.len(),
        forall|k: int| 0 <= k < n ==> (#[trigger] woken_by(stats, ops, at, k)).can_wake(ops[k]),
    ensures
        ({
            let after = woken_by(stats, ops, at, n);
            &&& after.waker_clones == stats.waker_clones + count_ops(ops, WakeOp::Clone, n)
            &&& after.waker_drops == stats.waker_drops + count_ops(ops, WakeOp::Drop, n)
                + count_ops(ops, WakeOp::Wake, n)
            &&& after.wakes == stats.wakes + count_ops(ops, WakeOp::Wake, n) + count_ops(
                ops,
                WakeOp::WakeByRef,
                n,
            )
            &&& after.live_wakers() == stats.live_wakers() + count_ops(ops, WakeOp::Clone, n)
                - count_ops(ops, WakeOp::Drop, n) - count_ops(ops, WakeOp::Wake, n)
        }),
    decreases n,
{
    if n > 0 {
        law_waker_counts(stats, ops, at, n - 1);
        assert(woken_by(stats, ops, at, n - 1).can_wake(ops[n - 1]));
    }
}

} // verus!
