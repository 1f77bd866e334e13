//! A monitoring operator core: declarative monitor and notifier resources,
//! a reconciliation dispatcher, a worker pipeline that turns probe verdicts
//! into status updates and lifecycle events, label-selector based
//! notification fan-out, and an idempotent resource-schema merge.

pub mod common;
pub mod controller;
pub mod crd;
pub mod discord_notifier;
pub mod http_monitor;
pub mod notifiers;
pub mod selector;
pub mod settings;
pub mod tcp_monitor;
pub mod text;
pub mod worker;

pub use common::MonitorState;
