//! What subscribers are sent: the wire form of each row, and the messages
//! that carry them.
use crate::attribute::AttrValue;
use crate::attribute::Attribute;
use crate::attribute::AttributeUpdate;
use crate::attribute::AttributeUpdateOp;
use crate::attribute::AttributeUpdateValue;
use crate::copy::copy_all;
use crate::copy::views_of;
use crate::entity::AsyncOp;
use crate::entity::AsyncOpStats;
use crate::entity::Resource;
use crate::entity::ResourceOp;
use crate::entity::ResourceOpView;
use crate::entity::Task;
use crate::entity::TaskStats;
use crate::entity::TaskStatsView;
use crate::entity::TaskView;
use crate::event::Field;
use crate::event::Metadata;
use crate::event::MetadataView;
use crate::event::OpType;
use crate::event::OpTypeView;
use crate::event::Readiness;
use crate::poll::PollStats;
use crate::resource::ResourceStats;
use crate::resource::ResourceStatsView;
use crate::table::ToProto;
use crate::table::proto_views;
use crate::time::Duration;
use crate::time::Timestamp;
use crate::time::lifetime;
use crate::time::total_time;
use std::collections::HashMap;
use vstd::prelude::*;

verus! {

/// Published poll counters: all of `PollStats` but the current depth.
#[derive(Clone, Copy, Debug, PartialEq, Eq, Structural)]
pub struct PollStatsProto {
    pub polls: u64,
    pub first_poll: Option<Timestamp>,
    pub last_poll_started: Option<Timestamp>,
    pub last_poll_ended: Option<Timestamp>,
    pub busy_time: Duration,
}

impl View for PollStatsProto {
    type V = PollStatsProto;

    open spec fn view(&self) -> PollStatsProto {
        *self
    }
}

impl View for PollStats {
    type V = PollStats;

    open spec fn view(&self) -> PollStats {
        *self
    }
}

impl ToProto for PollStats {
    type Result = PollStatsProto;

    open spec fn proto_of(row: PollStats) -> PollStatsProto {
        PollStatsProto {
            polls: row.polls,
            first_poll: row.first_poll,
            last_poll_started: row.last_poll_started,
            last_poll_ended: row.last_poll_ended,
            busy_time: row.busy_time,
        }
    }

    fn to_proto(&self) -> (proto: PollStatsProto) {
        PollStatsProto {
            polls: self.polls,
            first_poll: self.first_poll,
            last_poll_started: self.last_poll_started,
            last_poll_ended: self.last_poll_ended,
            busy_time: self.busy_time,
        }
    }
}

/// The kind of a task.
#[derive(Clone, Copy, Debug, PartialEq, Eq, Structural)]
pub enum TaskKind {
    Spawn,
}

/// A published task.
#[derive(Clone, Debug, PartialEq, Eq)]
pub struct TaskProto {
    pub id: u64,
    pub kind: TaskKind,
    pub metadata: u64,
    pub fields: Vec<Field>,
}

pub struct TaskProtoView {
    pub id: u64,
    pub kind: TaskKind,
    pub metadata: u64,
    pub fields: Seq<Field>,
}

impl View for TaskProto {
    type V = TaskProtoView;

    open spec fn view(&self) -> TaskProtoView {
        TaskProtoView {
            id: self.id,
            kind: self.kind,
            metadata: self.metadata,
            fields: views_of(self.fields@),
        }
    }
}

impl ToProto for Task {
    type Result = TaskProto;

    open spec fn proto_of(row: TaskView) -> TaskProtoView {
        TaskProtoView {
            id: row.id,
            kind: TaskKind::Spawn,
            metadata: row.metadata,
            fields: row.fields,
        }
    }

    fn to_proto(&self) -> (proto: TaskProto) {
        TaskProto {
            id: self.id,
            kind: TaskKind::Spawn,
            metadata: self.metadata,
            fields: copy_all(&self.fields),
        }
    }
}

/// Published task statistics. `total_time` is how long the task lived, once
/// it has been closed.
#[derive(Clone, Copy, Debug, PartialEq, Eq, Structural)]
pub struct TaskStatsProto {
    pub poll_stats: PollStatsProto,
    pub created_at: Option<Timestamp>,
    pub total_time: Option<Duration>,
    pub wakes: u64,
    pub waker_clones: u64,
    pub waker_drops: u64,
    pub last_wake: Option<Timestamp>,
}

impl View for TaskStatsProto {
    type V = TaskStatsProto;

    open spec fn view(&self) -> TaskStatsProto {
        *self
    }
}

impl ToProto for TaskStats {
    type Result = TaskStatsProto;

    open spec fn proto_of(row: TaskStatsView) -> TaskStatsProto {
        TaskStatsProto {
            poll_stats: PollStats::proto_of(row.poll_stats),
            created_at: row.created_at,
            total_time: lifetime(row.created_at, row.closed_at),
            wakes: row.wakes,
            waker_clones: row.waker_clones,
            waker_drops: row.waker_drops,
            last_wake: row.last_wake,
        }
    }

    fn to_proto(&self) -> (proto: TaskStatsProto) {
        TaskStatsProto {
            poll_stats: self.poll_stats.to_proto(),
            created_at: self.created_at,
            total_time: total_time(self.created_at.as_ref(), self.closed_at.as_ref()),
            wakes: self.wakes,
            waker_clones: self.waker_clones,
            waker_drops: self.waker_drops,
            last_wake: self.last_wake,
        }
    }
}

impl ToProto for Resource {
    type Result = Resource;

    open spec fn proto_of(row: Resource) -> Resource {
        row
    }

    fn to_proto(&self) -> (proto: Resource) {
        Resource {
            id: self.id,
            kind: self.kind.clone(),
            metadata: self.metadata,
            concrete_type: self.concrete_type.clone(),
        }
    }
}

impl View for AttrValue {
    type V = AttrValue;

    open spec fn view(&self) -> AttrValue {
        *self
    }
}

impl ToProto for AttrValue {
    type Result = AttrValue;

    open spec fn proto_of(row: AttrValue) -> AttrValue {
        row
    }

    fn to_proto(&self) -> (proto: AttrValue) {
        self.duplicate()
    }
}

/// Published resource statistics: the values of the attributes, in the order
/// in which the attributes were first seen.
#[derive(Clone, Debug, PartialEq, Eq)]
pub struct ResourceStatsProto {
    pub created_at: Option<Timestamp>,
    pub total_time: Option<Duration>,
    pub attributes: Vec<AttrValue>,
}

pub struct ResourceStatsProtoView {
    pub created_at: Option<Timestamp>,
    pub total_time: Option<Duration>,
    pub attributes: Seq<AttrValue>,
}

impl View for ResourceStatsProto {
    type V = ResourceStatsProtoView;

    open spec fn view(&self) -> ResourceStatsProtoView {
        ResourceStatsProtoView {
            created_at: self.created_at,
            total_time: self.total_time,
            attributes: self.attributes@,
        }
    }
}

impl ToProto for ResourceStats {
    type Result = ResourceStatsProto;

    open spec fn proto_of(row: ResourceStatsView) -> ResourceStatsProtoView {
        ResourceStatsProtoView {
            created_at: row.created_at,
            total_time: lifetime(row.created_at, row.closed_at),
            attributes: row.attributes.map_values(|attr: Attribute| attr.value),
        }
    }

    fn to_proto(&self) -> (proto: ResourceStatsProto) {
        let mut attributes: Vec<AttrValue> = Vec::new();
        let mut i: usize = 0;
        while i < self.attributes.len()
            invariant
                i <= self.attributes.len(),
                attributes.len() == i,
                forall|j: int| 0 <= j < i ==> #[trigger] attributes@[j] == self.attributes@[j].value,
            decreases self.attributes.len() - i,
        {
            attributes.push(self.attributes[i].value.to_proto());
            i = i + 1;
        }
        assert(attributes@ =~= self.attributes@.map_values(|attr: Attribute| attr.value));
        ResourceStatsProto {
            created_at: self.created_at,
            total_time: total_time(self.created_at.as_ref(), self.closed_at.as_ref()),
            attributes,
        }
    }
}

impl ToProto for AsyncOp {
    type Result = AsyncOp;

    open spec fn proto_of(row: AsyncOp) -> AsyncOp {
        row
    }

    fn to_proto(&self) -> (proto: AsyncOp) {
        AsyncOp { id: self.id, metadata: self.metadata, source: self.source.clone() }
    }
}

/// Published async operation statistics.
#[derive(Clone, Copy, Debug, PartialEq, Eq, Structural)]
pub struct AsyncOpStatsProto {
    pub poll_stats: PollStatsProto,
    pub created_at: Option<Timestamp>,
    pub total_time: Option<Duration>,
    pub latest_poll_op: Option<u64>,
    pub resource_id: Option<u64>,
    pub task_id: Option<u64>,
}

impl View for AsyncOpStatsProto {
    type V = AsyncOpStatsProto;

    open spec fn view(&self) -> AsyncOpStatsProto {
        *self
    }
}

impl ToProto for AsyncOpStats {
    type Result = AsyncOpStatsProto;

    open spec fn proto_of(row: AsyncOpStats) -> AsyncOpStatsProto {
        AsyncOpStatsProto {
            poll_stats: PollStats::proto_of(row.poll_stats),
            created_at: row.created_at,
            total_time: lifetime(row.created_at, row.closed_at),
            latest_poll_op: row.latest_poll_op,
            resource_id: row.resource_id,
            task_id: row.task_id,
        }
    }

    fn to_proto(&self) -> (proto: AsyncOpStatsProto) {
        AsyncOpStatsProto {
            poll_stats: self.poll_stats.to_proto(),
            created_at: self.created_at,
            total_time: total_time(self.created_at.as_ref(), self.closed_at.as_ref()),
            latest_poll_op: self.latest_poll_op,
            resource_id: self.resource_id,
            task_id: self.task_id,
        }
    }
}

/// The published form of what one attribute update carries.
#[derive(Clone, Debug, PartialEq, Eq)]
pub enum UpdateProto {
    Text(String),
    Numeric { val: u64, op: AttributeUpdateOp, unit: String },
}

/// A published attribute update.
#[derive(Clone, Debug, PartialEq, Eq)]
pub struct AttributeUpdateProto {
    pub name: String,
    pub update: UpdateProto,
}

impl View for AttributeUpdateProto {
    type V = AttributeUpdateProto;

    open spec fn view(&self) -> AttributeUpdateProto {
        *self
    }
}

impl View for AttributeUpdate {
    type V = AttributeUpdate;

    open spec fn view(&self) -> AttributeUpdate {
        *self
    }
}

impl ToProto for AttributeUpdate {
    type Result = AttributeUpdateProto;

    open spec fn proto_of(row: AttributeUpdate) -> AttributeUpdateProto {
        AttributeUpdateProto {
            name: row.name,
            update: match row.val {
                AttributeUpdateValue::Text(val) => UpdateProto::Text(val),
                AttributeUpdateValue::Numeric { val, op, unit } => UpdateProto::Numeric {
                    val,
                    op,
                    unit,
                },
            },
        }
    }

    fn to_proto(&self) -> (proto: AttributeUpdateProto) {
        match &self.val {
            AttributeUpdateValue::Text(val) => AttributeUpdateProto {
                name: self.name.clone(),
                update: UpdateProto::Text(val.clone()),
            },
            AttributeUpdateValue::Numeric { val, op, unit } => {
                let val = *val;
                let unit = unit.clone();
                let op = match op {
                    AttributeUpdateOp::Add => AttributeUpdateOp::Add,
                    AttributeUpdateOp::Sub => AttributeUpdateOp::Sub,
                    AttributeUpdateOp::Ovr => AttributeUpdateOp::Ovr,
                };
                AttributeUpdateProto {
                    name: self.name.clone(),
                    update: UpdateProto::Numeric { val, op, unit },
                }
            },
        }
    }
}

/// The published form of what a resource operation did.
#[derive(Clone, Debug, PartialEq, Eq)]
pub enum OpTypeProto {
    Poll { task_id: u64, async_op_id: u64, readiness: Readiness },
    StateUpdate { updates: Vec<AttributeUpdateProto> },
}

pub enum OpTypeProtoView {
    Poll { task_id: u64, async_op_id: u64, readiness: Readiness },
    StateUpdate { updates: Seq<AttributeUpdateProto> },
}

impl View for OpTypeProto {
    type V = OpTypeProtoView;

    open spec fn view(&self) -> OpTypeProtoView {
        match *self {
            OpTypeProto::Poll { task_id, async_op_id, readiness } => OpTypeProtoView::Poll {
                task_id,
                async_op_id,
                readiness,
            },
            OpTypeProto::StateUpdate { updates } => OpTypeProtoView::StateUpdate {
                updates: updates@,
            },
        }
    }
}

impl ToProto for OpType {
    type Result = OpTypeProto;

    open spec fn proto_of(row: OpTypeView) -> OpTypeProtoView {
        match row {
            OpTypeView::Poll { async_op_id, task_id, readiness } => OpTypeProtoView::Poll {
                task_id,
                async_op_id,
                readiness,
            },
            OpTypeView::StateUpdate(attrs) => OpTypeProtoView::StateUpdate {
                updates: attrs.map_values(|attr: AttributeUpdate| AttributeUpdate::proto_of(attr)),
            },
        }
    }

    fn to_proto(&self) -> (proto: OpTypeProto) {
        match self {
            OpType::Poll { async_op_id, task_id, readiness } => OpTypeProto::Poll {
                task_id: *task_id,
                async_op_id: *async_op_id,
                readiness: match readiness {
                    Readiness::Pending => Readiness::Pending,
                    Readiness::Ready => Readiness::Ready,
                },
            },
            OpType::StateUpdate(attrs) => {
                let mut updates: Vec<AttributeUpdateProto> = Vec::new();
                let mut i: usize = 0;
                while i < attrs.len()
                    invariant
                        i <= attrs.len(),
                        updates.len() == i,
                        forall|j: int|
                            0 <= j < i ==> #[trigger] updates@[j] == AttributeUpdate::proto_of(
                                attrs@[j],
                            ),
                    decreases attrs.len() - i,
                {
                    updates.push(attrs[i].to_proto());
                    i = i + 1;
                }
                assert(updates@ =~= attrs@.map_values(
                    |attr: AttributeUpdate| AttributeUpdate::proto_of(attr),
                ));
                OpTypeProto::StateUpdate { updates }
            },
        }
    }
}

/// A published resource operation.
#[derive(Clone, Debug, PartialEq, Eq)]
pub struct ResourceOpProto {
    pub id: u64,
    pub metadata: u64,
    pub op_type: OpTypeProto,
    pub resource_id: u64,
    pub name: String,
}

pub struct ResourceOpProtoView {
    pub id: u64,
    pub metadata: u64,
    pub op_type: OpTypeProtoView,
    pub resource_id: u64,
    pub name: String,
}

impl View for ResourceOpProto {
    type V = ResourceOpProtoView;

    open spec fn view(&self) -> ResourceOpProtoView {
        ResourceOpProtoView {
            id: self.id,
            metadata: self.metadata,
            op_type: self.op_type@,
            resource_id: self.resource_id,
            name: self.name,
        }
    }
}

impl ToProto for ResourceOp {
    type Result = ResourceOpProto;

    open spec fn proto_of(row: ResourceOpView) -> ResourceOpProtoView {
        ResourceOpProtoView {
            id: row.id,
            metadata: row.metadata,
            op_type: OpType::proto_of(row.op_type),
            resource_id: row.resource_id,
            name: row.op_name,
        }
    }

    fn to_proto(&self) -> (proto: ResourceOpProto) {
        ResourceOpProto {
            id: self.id,
            metadata: self.metadata,
            op_type: self.op_type.to_proto(),
            resource_id: self.resource_id,
            name: self.op_name.clone(),
        }
    }
}

/// New tasks and changed task statistics, by task id.
#[derive(Clone, Debug, PartialEq, Eq)]
pub struct TaskUpdate {
    pub new_tasks: HashMap<u64, TaskProto>,
    pub stats_update: HashMap<u64, TaskStatsProto>,
}

/// New resources and changed resource statistics, by resource id.
#[derive(Clone, Debug, PartialEq, Eq)]
pub struct ResourceUpdate {
    pub new_resources: HashMap<u64, Resource>,
    pub stats_update: HashMap<u64, ResourceStatsProto>,
}

/// New async operations and changed async operation statistics, by id.
#[derive(Clone, Debug, PartialEq, Eq)]
pub struct AsyncOpUpdate {
    pub new_async_ops: HashMap<u64, AsyncOp>,
    pub stats_update: HashMap<u64, AsyncOpStatsProto>,
}

/// New resource operations, by the id of their descriptor.
#[derive(Clone, Debug, PartialEq, Eq)]
pub struct ResourceOpUpdate {
    pub new_resource_ops: HashMap<u64, ResourceOpProto>,
}

/// One message of the instrument stream.
#[derive(Clone, Debug, PartialEq, Eq)]
pub struct InstrumentUpdate {
    pub now: Timestamp,
    pub new_metadata: Option<Vec<Metadata>>,
    pub task_update: TaskUpdate,
    pub resource_update: ResourceUpdate,
    pub async_op_update: AsyncOpUpdate,
    pub resource_op_update: ResourceOpUpdate,
}

/// An instrument message as a mathematical value: each part by id, as views.
pub struct InstrumentUpdateView {
    pub now: Timestamp,
    pub new_metadata: Option<Seq<MetadataView>>,
    pub new_tasks: Map<u64, TaskProtoView>,
    pub task_stats: Map<u64, TaskStatsProto>,
    pub new_resources: Map<u64, Resource>,
    pub resource_stats: Map<u64, ResourceStatsProtoView>,
    pub new_async_ops: Map<u64, AsyncOp>,
    pub async_op_stats: Map<u64, AsyncOpStatsProto>,
    pub new_resource_ops: Map<u64, ResourceOpProtoView>,
}

impl View for InstrumentUpdate {
    type V = InstrumentUpdateView;

    open spec fn view(&self) -> InstrumentUpdateView {
        InstrumentUpdateView {
            now: self.now,
            new_metadata: match self.new_metadata {
                Some(metadata) => Some(views_of(metadata@)),
                None => None,
            },
            new_tasks: proto_views(self.task_update.new_tasks@),
            task_stats: proto_views(self.task_update.stats_update@),
            new_resources: proto_views(self.resource_update.new_resources@),
            resource_stats: proto_views(self.resource_update.stats_update@),
            new_async_ops: proto_views(self.async_op_update.new_async_ops@),
            async_op_stats: proto_views(self.async_op_update.stats_update@),
            new_resource_ops: proto_views(self.resource_op_update.new_resource_ops@),
        }
    }
}

/// One message of a task's details stream.
#[derive(Clone, Debug, PartialEq, Eq)]
pub struct TaskDetails {
    pub task_id: u64,
    pub now: Timestamp,
    pub poll_times_histogram: Option<Vec<u8>>,
}

} // verus!
