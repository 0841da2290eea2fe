//! The events that instrumentation hands to the aggregator.
use crate::attribute::AttributeUpdate;
use crate::copy::DeepCopy;
use crate::copy::copy_all;
use crate::copy::views_of;
use crate::time::Timestamp;
use vstd::prelude::*;

verus! {

/// What happened to a task's waker.
#[derive(Clone, Copy, Debug, PartialEq, Eq, Structural)]
pub enum WakeOp {
    Wake,
    WakeByRef,
    Clone,
    Drop,
}

/// Whether a polled operation was ready.
#[derive(Clone, Copy, Debug, PartialEq, Eq, Structural)]
pub enum Readiness {
    Pending,
    Ready,
}

/// The verbosity level of a trace point.
#[derive(Clone, Copy, Debug, PartialEq, Eq, Structural)]
pub enum Level {
    Trace,
    Debug,
    Info,
    Warn,
    Error,
}

/// The description of a trace point. `id` identifies the descriptor for as
/// long as the program runs; rows refer to a descriptor by it.
#[derive(Clone, Debug, PartialEq, Eq)]
pub struct Metadata {
    pub id: u64,
    pub name: String,
    pub target: String,
    pub level: Level,
    pub field_names: Vec<String>,
}

pub struct MetadataView {
    pub id: u64,
    pub name: Seq<char>,
    pub target: Seq<char>,
    pub level: Level,
    pub field_names: Seq<Seq<char>>,
}

impl View for Metadata {
    type V = MetadataView;

    open spec fn view(&self) -> MetadataView {
        MetadataView {
            id: self.id,
            name: self.name@,
            target: self.target@,
            level: self.level,
            field_names: views_of(self.field_names@),
        }
    }
}

impl DeepCopy for Metadata {
    fn deep_copy(&self) -> (copy: Metadata) {
        Metadata {
            id: self.id,
            name: self.name.clone(),
            target: self.target.clone(),
            level: self.level,
            field_names: copy_all(&self.field_names),
        }
    }
}

/// The value of a structured field.
#[derive(Clone, Debug, PartialEq, Eq)]
pub enum FieldValue {
    Debug(String),
    Str(String),
    U64(u64),
    I64(i64),
    Bool(bool),
}

/// A structured field of a span.
#[derive(Clone, Debug, PartialEq, Eq)]
pub struct Field {
    pub name: String,
    pub value: FieldValue,
}

impl View for Field {
    type V = Field;

    open spec fn view(&self) -> Field {
        *self
    }
}

impl DeepCopy for Field {
    fn deep_copy(&self) -> (copy: Field) {
        let value = match &self.value {
            FieldValue::Debug(s) => FieldValue::Debug(s.clone()),
            FieldValue::Str(s) => FieldValue::Str(s.clone()),
            FieldValue::U64(n) => FieldValue::U64(*n),
            FieldValue::I64(n) => FieldValue::I64(*n),
            FieldValue::Bool(b) => FieldValue::Bool(*b),
        };
        Field { name: self.name.clone(), value }
    }
}

/// What a resource operation did.
#[derive(Clone, Debug, PartialEq, Eq)]
pub enum OpType {
    /// It changed attributes of the resource.
    StateUpdate(Vec<AttributeUpdate>),
    /// It polled an async operation on behalf of a task.
    Poll { async_op_id: u64, task_id: u64, readiness: Readiness },
}

pub enum OpTypeView {
    StateUpdate(Seq<AttributeUpdate>),
    Poll { async_op_id: u64, task_id: u64, readiness: Readiness },
}

impl View for OpType {
    type V = OpTypeView;

    open spec fn view(&self) -> OpTypeView {
        match *self {
            OpType::StateUpdate(updates) => OpTypeView::StateUpdate(updates@),
            OpType::Poll { async_op_id, task_id, readiness } => OpTypeView::Poll {
                async_op_id,
                task_id,
                readiness,
            },
        }
    }
}

/// One lifecycle event of the instrumented program.
#[derive(Clone, Debug, PartialEq, Eq)]
pub enum Event {
    Metadata(Metadata),
    Spawn { id: u64, metadata: u64, at: Timestamp, fields: Vec<Field> },
    Enter { id: u64, at: Timestamp },
    Exit { id: u64, at: Timestamp },
    Close { id: u64, at: Timestamp },
    Waker { id: u64, op: WakeOp, at: Timestamp },
    Resource { id: u64, metadata: u64, kind: String, concrete_type: String, at: Timestamp },
    ResourceOp { metadata: u64, at: Timestamp, resource_id: u64, op_name: String, op_type: OpType },
    AsyncResourceOp { id: u64, source: String, metadata: u64, at: Timestamp },
}

pub enum EventView {
    Metadata(MetadataView),
    Spawn { id: u64, metadata: u64, at: Timestamp, fields: Seq<Field> },
    Enter { id: u64, at: Timestamp },
    Exit { id: u64, at: Timestamp },
    Close { id: u64, at: Timestamp },
    Waker { id: u64, op: WakeOp, at: Timestamp },
    Resource { id: u64, metadata: u64, kind: String, concrete_type: String, at: Timestamp },
    ResourceOp {
        metadata: u64,
        at: Timestamp,
        resource_id: u64,
        op_name: String,
        op_type: OpTypeView,
    },
    AsyncResourceOp { id: u64, source: String, metadata: u64, at: Timestamp },
}

impl View for Event {
    type V = EventView;

    open spec fn view(&self) -> EventView {
        match *self {
            Event::Metadata(meta) => EventView::Metadata(meta@),
            Event::Spawn { id, metadata, at, fields } => EventView::Spawn {
                id,
                metadata,
                at,
                fields: views_of(fields@),
            },
            Event::Enter { id, at } => EventView::Enter { id, at },
            Event::Exit { id, at } => EventView::Exit { id, at },
            Event::Close { id, at } => EventView::Close { id, at },
            Event::Waker { id, op, at } => EventView::Waker { id, op, at },
            Event::Resource { id, metadata, kind, concrete_type, at } => EventView::Resource {
                id,
                metadata,
                kind,
                concrete_type,
                at,
            },
            Event::ResourceOp { metadata, at, resource_id, op_name, op_type } => {
                EventView::ResourceOp { metadata, at, resource_id, op_name, op_type: op_type@ }
            },
            Event::AsyncResourceOp { id, source, metadata, at } => EventView::AsyncResourceOp {
                id,
                source,
                metadata,
                at,
            },
        }
    }
}

} // verus!
