//! Core of a pub/sub benchmark driver: verified configuration building,
//! topic provisioning decisions, task-pool planning, per-task step logic,
//! and measurement accounting. Broker I/O itself lives outside this crate.

pub mod client;
pub mod config;
pub mod lifecycle;
pub mod metrics;
pub mod provision;
pub mod publisher;
pub mod queue;
pub mod subscriber;
pub mod text;
