//! The rows that the aggregator keeps: the identity of each task, resource,
//! async operation and resource operation, and the statistics of the first
//! and the third.
use crate::copy::views_of;
use crate::event::Field;
use crate::event::OpType;
use crate::event::OpTypeView;
use crate::event::WakeOp;
use crate::histogram::PollHistogram;
use crate::histogram::recorded_samples;
use crate::poll::PollStats;
use crate::resource::ResourceStats;
use crate::resource::ResourceStatsView;
use crate::time::Timestamp;
use crate::time::clamped_nanos;
use vstd::multiset::Multiset;
use vstd::prelude::*;

verus! {

/// Statistics of an entity that can be closed and, once closed, reclaimed.
pub trait Closable: View {
    /// When the entity was closed, read from the view of its statistics.
    spec fn closed_at_of(stats: Self::V) -> Option<Timestamp>;

    fn closed_at(&self) -> (closed: &Option<Timestamp>)
        ensures
            *closed == Self::closed_at_of(self@),
    ;
}

/// Statistics that have a state for an entity that no event has described
/// yet: what a table stores when a row is asked for and is not there.
pub trait DefaultRow: View + Sized {
    /// The view of those statistics.
    spec fn default_view() -> Self::V;

    fn default_row() -> (row: Self)
        ensures
            row@ == Self::default_view(),
    ;
}

/// The identity of a task.
#[derive(Clone, Debug, PartialEq, Eq)]
pub struct Task {
    pub id: u64,
    pub metadata: u64,
    pub fields: Vec<Field>,
}

pub struct TaskView {
    pub id: u64,
    pub metadata: u64,
    pub fields: Seq<Field>,
}

impl View for Task {
    type V = TaskView;

    open spec fn view(&self) -> TaskView {
        TaskView { id: self.id, metadata: self.metadata, fields: views_of(self.fields@) }
    }
}

/// The identity of a resource.
#[derive(Clone, Debug, PartialEq, Eq)]
pub struct Resource {
    pub id: u64,
    pub metadata: u64,
    pub concrete_type: String,
    pub kind: String,
}

impl View for Resource {
    type V = Resource;

    open spec fn view(&self) -> Resource {
        *self
    }
}

/// The identity of an async operation.
#[derive(Clone, Debug, PartialEq, Eq)]
pub struct AsyncOp {
    pub id: u64,
    pub metadata: u64,
    pub source: String,
}

impl View for AsyncOp {
    type V = AsyncOp;

    open spec fn view(&self) -> AsyncOp {
        *self
    }
}

/// The latest operation seen at one call site of a resource.
#[derive(Clone, Debug, PartialEq, Eq)]
pub struct ResourceOp {
    pub id: u64,
    pub metadata: u64,
    pub resource_id: u64,
    pub op_name: String,
    pub op_type: OpType,
}

pub struct ResourceOpView {
    pub id: u64,
    pub metadata: u64,
    pub resource_id: u64,
    pub op_name: String,
    pub op_type: OpTypeView,
}

impl View for ResourceOp {
    type V = ResourceOpView;

    open spec fn view(&self) -> ResourceOpView {
        ResourceOpView {
            id: self.id,
            metadata: self.metadata,
            resource_id: self.resource_id,
            op_name: self.op_name,
            op_type: self.op_type@,
        }
    }
}

/// The mutable statistics of a task.
pub struct TaskStats {
    pub created_at: Option<Timestamp>,
    pub closed_at: Option<Timestamp>,
    pub wakes: u64,
    pub waker_clones: u64,
    pub waker_drops: u64,
    pub last_wake: Option<Timestamp>,
    pub poll_times_histogram: PollHistogram,
    pub poll_stats: PollStats,
}

/// The statistics of a task with the histogram taken as the samples recorded
/// into it.
pub struct TaskStatsView {
    pub created_at: Option<Timestamp>,
    pub closed_at: Option<Timestamp>,
    pub wakes: u64,
    pub waker_clones: u64,
    pub waker_drops: u64,
    pub last_wake: Option<Timestamp>,
    pub poll_times: Multiset<u64>,
    pub poll_stats: PollStats,
}

impl View for TaskStats {
    type V = TaskStatsView;

    open spec fn view(&self) -> TaskStatsView {
        TaskStatsView {
            created_at: self.created_at,
            closed_at: self.closed_at,
            wakes: self.wakes,
            waker_clones: self.waker_clones,
            waker_drops: self.waker_drops,
            last_wake: self.last_wake,
            poll_times: recorded_samples(self.poll_times_histogram),
            poll_stats: self.poll_stats,
        }
    }
}

impl TaskStatsView {
    /// The statistics of a task that no event has described yet.
    pub open spec fn fresh() -> TaskStatsView {
        TaskStatsView {
            created_at: None,
            closed_at: None,
            wakes: 0,
            waker_clones: 0,
            waker_drops: 0,
            last_wake: None,
            poll_times: Multiset::empty(),
            poll_stats: PollStats::fresh(),
        }
    }

    /// The statistics of a task spawned at `at`.
    pub open spec fn spawned(at: Timestamp) -> TaskStatsView {
        TaskStatsView { created_at: Some(at), ..Self::fresh() }
    }

    /// The statistics after the task was closed at `at`. The first close is
    /// the one that counts: a time of closing that is set is kept.
    pub open spec fn closed(self, at: Timestamp) -> TaskStatsView {
        TaskStatsView {
            closed_at: if self.closed_at is None {
                Some(at)
            } else {
                self.closed_at
            },
            ..self
        }
    }

    /// The wakers of the task that are alive: those cloned and not yet
    /// dropped, where waking by value counts as a drop.
    pub open spec fn live_wakers(self) -> int {
        self.waker_clones - self.waker_drops
    }

    /// Whether a waker operation can be counted without a counter leaving
    /// `u64`.
    pub open spec fn can_wake(self, op: WakeOp) -> bool {
        match op {
            WakeOp::Wake => self.wakes < u64::MAX && self.waker_drops < u64::MAX,
            WakeOp::WakeByRef => self.wakes < u64::MAX,
            WakeOp::Clone => self.waker_clones < u64::MAX,
            WakeOp::Drop => self.waker_drops < u64::MAX,
        }
    }

    /// The statistics after a waker operation at `at`. Waking by value uses
    /// the waker up without dropping it, so it is counted as a drop too.
    pub open spec fn woken(self, op: WakeOp, at: Timestamp) -> TaskStatsView {
        match op {
            WakeOp::Wake => TaskStatsView {
                wakes: (self.wakes + 1) as u64,
                last_wake: Some(at),
                waker_drops: (self.waker_drops + 1) as u64,
                ..self
            },
            WakeOp::WakeByRef => TaskStatsView {
                wakes: (self.wakes + 1) as u64,
                last_wake: Some(at),
                ..self
            },
            WakeOp::Clone => TaskStatsView {
                waker_clones: (self.waker_clones + 1) as u64,
                ..self
            },
            WakeOp::Drop => TaskStatsView { waker_drops: (self.waker_drops + 1) as u64, ..self },
        }
    }

    pub open spec fn can_enter(self) -> bool {
        self.poll_stats.can_enter()
    }

    pub open spec fn entered(self, at: Timestamp) -> TaskStatsView {
        TaskStatsView { poll_stats: self.poll_stats.entered(at), ..self }
    }

    /// Whether an exit at `at` can be counted: `busy_time` must not overflow,
    /// and the histogram must have room for the sample.
    pub open spec fn can_exit(self, at: Timestamp) -> bool {
        &&& self.poll_stats.can_exit(at)
        &&& self.poll_stats.poll_ended(at) is Some ==> self.poll_times.len() < u64::MAX
    }

    /// The statistics after an exit at `at`: the poll counters move on, and
    /// the length of an outermost poll that ended is recorded as one sample,
    /// in nanoseconds clamped to `u64`.
    pub open spec fn exited(self, at: Timestamp) -> TaskStatsView {
        TaskStatsView {
            poll_stats: self.poll_stats.exited(at),
            poll_times: match self.poll_stats.poll_ended(at) {
                Some(elapsed) => self.poll_times.insert(clamped_nanos(elapsed)),
                None => self.poll_times,
            },
            ..self
        }
    }
}

impl TaskStats {
    /// The statistics of a task spawned at `at`.
    pub fn spawned(at: Timestamp) -> (stats: TaskStats)
        ensures
            stats@ == TaskStatsView::spawned(at),
    {
        let mut stats = TaskStats::default();
        stats.created_at = Some(at);
        stats
    }

    /// Closes the task at `at`, unless it has been closed before.
    pub fn close(&mut self, at: Timestamp)
        ensures
            final(self)@ == old(self)@.closed(at),
    {
        if self.closed_at.is_none() {
            self.closed_at = Some(at);
        }
    }

    pub fn can_wake(&self, op: WakeOp) -> (ok: bool)
        ensures
            ok == self@.can_wake(op),
    {
        match op {
            WakeOp::Wake => self.wakes < u64::MAX && self.waker_drops < u64::MAX,
            WakeOp::WakeByRef => self.wakes < u64::MAX,
            WakeOp::Clone => self.waker_clones < u64::MAX,
            WakeOp::Drop => self.waker_drops < u64::MAX,
        }
    }

    /// Counts a waker operation.
    pub fn wake(&mut self, op: WakeOp, at: Timestamp)
        requires
            old(self)@.can_wake(op),
        ensures
            final(self)@ == old(self)@.woken(op, at),
    {
        match op {
            WakeOp::Wake => {
                self.wakes = self.wakes + 1;
                self.last_wake = Some(at);
                self.waker_drops = self.waker_drops + 1;
            },
            WakeOp::WakeByRef => {
                self.wakes = self.wakes + 1;
                self.last_wake = Some(at);
            },
            WakeOp::Clone => {
                self.waker_clones = self.waker_clones + 1;
            },
            WakeOp::Drop => {
                self.waker_drops = self.waker_drops + 1;
            },
        }
    }

    pub fn can_enter(&self) -> (ok: bool)
        ensures
            ok == self@.can_enter(),
    {
        self.poll_stats.current_polls < u64::MAX && (self.poll_stats.current_polls != 0
            || self.poll_stats.polls < u64::MAX)
    }

    /// Counts the start of a poll.
    pub fn enter(&mut self, at: Timestamp)
        requires
            old(self)@.can_enter(),
        ensures
            final(self)@ == old(self)@.entered(at),
    {
        self.poll_stats.enter(at);
    }

    pub fn can_exit(&self, at: Timestamp) -> (ok: bool)
        ensures
            ok == self@.can_exit(at),
    {
        if self.poll_stats.current_polls == 1 {
            match self.poll_stats.last_poll_started {
                Some(started) => {
                    let elapsed = at.saturating_duration_since(started);
                    elapsed.nanos <= u128::MAX - self.poll_stats.busy_time.nanos
                        && self.poll_times_histogram.total_count() < u64::MAX
                },
                None => true,
            }
        } else {
            true
        }
    }

    /// Counts the end of a poll and records the length of an outermost poll
    /// into the histogram.
    pub fn exit(&mut self, at: Timestamp)
        requires
            old(self)@.can_exit(at),
        ensures
            final(self)@ == old(self)@.exited(at),
    {
        if let Some(elapsed) = self.poll_stats.exit(at) {
            self.poll_times_histogram.record(elapsed.as_sample());
        }
    }

    /// The number of poll times recorded, saturating at `u64::MAX`.
    pub fn poll_times_recorded(&self) -> (n: u64)
        ensures
            n == if self@.poll_times.len() <= u64::MAX {
                self@.poll_times.len()
            } else {
                u64::MAX as nat
            },
    {
        self.poll_times_histogram.total_count()
    }
}

impl Default for TaskStats {
    fn default() -> (stats: TaskStats)
        ensures
            stats@ == TaskStatsView::fresh(),
    {
        TaskStats {
            created_at: None,
            closed_at: None,
            wakes: 0,
            waker_clones: 0,
            waker_drops: 0,
            last_wake: None,
            poll_times_histogram: PollHistogram::new(),
            poll_stats: PollStats::default(),
        }
    }
}

/// The mutable statistics of an async operation. `resource_id` and `task_id`
/// are set by the first poll that names them and kept from then on.
#[derive(Clone, Copy, Debug, PartialEq, Eq, Structural)]
pub struct AsyncOpStats {
    pub created_at: Option<Timestamp>,
    pub closed_at: Option<Timestamp>,
    pub latest_poll_op: Option<u64>,
    pub resource_id: Option<u64>,
    pub task_id: Option<u64>,
    pub poll_stats: PollStats,
}

impl View for AsyncOpStats {
    type V = AsyncOpStats;

    open spec fn view(&self) -> AsyncOpStats {
        *self
    }
}

impl AsyncOpStats {
    /// The statistics of an async operation that no event has described yet.
    pub open spec fn fresh() -> AsyncOpStats {
        AsyncOpStats {
            created_at: None,
            closed_at: None,
            latest_poll_op: None,
            resource_id: None,
            task_id: None,
            poll_stats: PollStats::fresh(),
        }
    }

    pub open spec fn created(at: Timestamp) -> AsyncOpStats {
        AsyncOpStats { created_at: Some(at), ..Self::fresh() }
    }

    /// The statistics after the operation was closed at `at`. The first close
    /// is the one that counts: a time of closing that is set is kept.
    pub open spec fn closed(self, at: Timestamp) -> AsyncOpStats {
        AsyncOpStats {
            closed_at: if self.closed_at is None {
                Some(at)
            } else {
                self.closed_at
            },
            ..self
        }
    }

    pub open spec fn entered(self, at: Timestamp) -> AsyncOpStats {
        AsyncOpStats { poll_stats: self.poll_stats.entered(at), ..self }
    }

    pub open spec fn exited(self, at: Timestamp) -> AsyncOpStats {
        AsyncOpStats { poll_stats: self.poll_stats.exited(at), ..self }
    }

    /// The statistics after the resource operation with descriptor `op`
    /// polled the async operation for `task_id` on `resource_id`.
    pub open spec fn polled(
        self,
        op: u64,
        task_id: u64,
        resource_id: u64,
        pending: bool,
        at: Timestamp,
    ) -> AsyncOpStats {
        AsyncOpStats {
            latest_poll_op: Some(op),
            task_id: if self.task_id is None {
                Some(task_id)
            } else {
                self.task_id
            },
            resource_id: if self.resource_id is None {
                Some(resource_id)
            } else {
                self.resource_id
            },
            poll_stats: self.poll_stats.polled(pending, at),
            ..self
        }
    }

    /// Closes the operation at `at`, unless it has been closed before.
    pub fn close(&mut self, at: Timestamp)
        ensures
            *final(self) == old(self).closed(at),
    {
        if self.closed_at.is_none() {
            self.closed_at = Some(at);
        }
    }

    /// Counts a poll that a resource operation reported.
    pub fn record_poll(
        &mut self,
        op: u64,
        task_id: u64,
        resource_id: u64,
        pending: bool,
        at: Timestamp,
    )
        requires
            old(self).poll_stats.polls < u64::MAX,
        ensures
            *final(self) == old(self).polled(op, task_id, resource_id, pending, at),
    {
        self.poll_stats.poll(pending, at);
        self.latest_poll_op = Some(op);
        if self.task_id.is_none() {
            self.task_id = Some(task_id);
        }
        if self.resource_id.is_none() {
            self.resource_id = Some(resource_id);
        }
    }
}

impl Default for AsyncOpStats {
    fn default() -> (stats: AsyncOpStats)
        ensures
            stats == AsyncOpStats::fresh(),
    {
        AsyncOpStats {
            created_at: None,
            closed_at: None,
            latest_poll_op: None,
            resource_id: None,
            task_id: None,
            poll_stats: PollStats::default(),
        }
    }
}

impl DefaultRow for TaskStats {
    open spec fn default_view() -> TaskStatsView {
        TaskStatsView::fresh()
    }

    fn default_row() -> (row: TaskStats) {
        TaskStats::default()
    }
}

impl DefaultRow for ResourceStats {
    open spec fn default_view() -> ResourceStatsView {
        ResourceStatsView::fresh()
    }

    fn default_row() -> (row: ResourceStats) {
        ResourceStats::default()
    }
}

impl DefaultRow for AsyncOpStats {
    open spec fn default_view() -> AsyncOpStats {
        AsyncOpStats::fresh()
    }

    fn default_row() -> (row: AsyncOpStats) {
        AsyncOpStats::default()
    }
}

impl Closable for TaskStats {
    open spec fn closed_at_of(stats: TaskStatsView) -> Option<Timestamp> {
        stats.closed_at
    }

    fn closed_at(&self) -> (closed: &Option<Timestamp>) {
        &self.closed_at
    }
}

impl Closable for ResourceStats {
    open spec fn closed_at_of(stats: ResourceStatsView) -> Option<Timestamp> {
        stats.closed_at
    }

    fn closed_at(&self) -> (closed: &Option<Timestamp>) {
        &self.closed_at
    }
}

impl Closable for AsyncOpStats {
    open spec fn closed_at_of(stats: AsyncOpStats) -> Option<Timestamp> {
        stats.closed_at
    }

    fn closed_at(&self) -> (closed: &Option<Timestamp>) {
        &self.closed_at
    }
}

} // verus!
