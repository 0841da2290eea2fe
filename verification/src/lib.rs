//! The aggregator of an async-runtime console: it reduces a stream of task,
//! resource and async-operation events into dirty-tracked entity tables,
//! publishes incremental updates to subscribed watchers and reclaims the rows
//! of closed entities once their retention has run out.
//!
//! The modules stand in the order in which they build on each other.
pub mod time;
pub mod copy;
pub mod histogram;
pub mod flush;
pub mod watch;
pub mod attribute;
pub mod poll;
pub mod event;
pub mod resource;
pub mod entity;
pub mod table;
pub mod retention;
pub mod wire;
pub mod state;
pub mod laws;
pub mod mirror;
pub mod aggregator;
