//! The client's saved settings.
use vstd::prelude::*;

verus! {

/// The saved settings: the server, the session token once logged in, and where the
/// control plane's compose files and images live.
#[derive(Debug, Clone, PartialEq, Eq)]
pub struct Config {
    pub server: String,
    pub token: Option<String>,
    pub compose_dir: Option<String>,
    pub ghcr_org: Option<String>,
}

} // verus!
