//! The control plane: its registry token for images, and its updates.
pub mod ghcr_token;
pub mod update;

use vstd::prelude::*;

verus! {

/// The `system` subcommands.
#[derive(Debug, PartialEq, Eq)]
pub enum SystemCommands {
    Stats { watch: bool },
    Update { version: String },
    UpdateStatus,
    UpdatePause,
    UpdateResume,
    CheckUpdate { pre: bool },
    SetGhcrToken,
}

} // verus!
