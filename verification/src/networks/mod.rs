//! Overlay networks: list, inspect, create and delete them, manage their members and policies.
pub mod create;
pub mod delete;
pub mod get;
pub mod list;
pub mod members;
pub mod policies;

use vstd::prelude::*;

verus! {

/// The `networks` subcommands.
#[derive(Debug, PartialEq, Eq)]
pub enum NetworkCommands {
    List,
    Get { id: String },
    Create { name: String, cidr: String, overlay: String },
    Delete { id: String },
    Policies { network: String },
    PolicyCreate {
        network: String,
        direction: String,
        action: String,
        priority: i32,
        source: Option<String>,
        destination: Option<String>,
        port: Option<i32>,
        protocol: Option<String>,
    },
    Members { network: String },
    MemberAdd { network: String, workload: String },
    MemberRemove { network: String, workload: String },
}

} // verus!
