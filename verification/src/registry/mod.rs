//! The agent registry: pending agents, pre-registration, statistics and registration tokens.
pub mod pending;
pub mod pre_register;
pub mod stats;
pub mod tokens;

use vstd::prelude::*;

verus! {

/// The `registry` subcommands.
#[derive(Debug, PartialEq, Eq)]
pub enum RegistryCommands {
    Agents,
    AgentsGet { id: String },
    Pending,
    Stats,
    Tokens,
}

} // verus!
