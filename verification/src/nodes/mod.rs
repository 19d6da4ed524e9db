//! Cluster nodes: inspect an agent, and read system and agent metrics.
pub mod agent_metrics;
pub mod get;
pub mod metrics;

use vstd::prelude::*;

verus! {

/// The `nodes` subcommands.
#[derive(Debug, PartialEq, Eq)]
pub enum NodeCommands {
    List,
    Get { id: String },
    Metrics,
    AgentMetrics { id: String },
}

} // verus!
