//! Failover events.
pub mod list;

use vstd::prelude::*;

verus! {

/// The `events` subcommands.
#[derive(Debug, PartialEq, Eq)]
pub enum EventCommands {
    List,
}

} // verus!
