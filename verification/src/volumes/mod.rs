//! Storage volumes: list, inspect, create, attach, detach and snapshot them.
pub mod get;
pub mod list;
pub mod create;
pub mod attach;
pub mod detach;
pub mod nodes;
pub mod snapshots;

use vstd::prelude::*;

verus! {

/// The `volumes` subcommands.
#[derive(Debug, PartialEq, Eq)]
pub enum VolumeCommands {
    List,
    Get { id: String },
    Create { name: String, size: i32, pool: Option<String> },
    Delete { id: String },
    Attach { id: String, agent: String, workload: Option<String> },
    Detach { id: String },
    Snapshots { volume: String },
    SnapshotCreate { volume: String, name: String },
}

} // verus!
