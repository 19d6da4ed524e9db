//! Container workloads: schedule, inspect and list them.
pub mod create;
pub mod get;
pub mod list;
