//! Supervisor for a local backend sidecar process.
//!
//! The library holds the verified core of a desktop application's native
//! half: the lifecycle state machine for a single supervised child process,
//! the search-path resolver used to launch it, the process-tree terminator's
//! decision logic, and the classification rules for runtime-version probes.
//! All operating-system work (spawning, killing, polling, reading the
//! environment) is performed by a thin unverified driver that feeds plain
//! values into these functions and carries their decisions out.

use vstd::prelude::*;

pub mod probes;
pub mod resolver;
pub mod supervisor;
pub mod terminator;
pub mod text;

pub use supervisor::BackendState;
pub use supervisor::BackendStatus;

verus! {

/// The host operating-system family, as far as the supervisor's decisions
/// depend on it: path-list syntax, candidate installation locations, and
/// whether process-tree termination needs an explicit kill-and-poll step.
#[derive(Clone, Copy, PartialEq, Eq, Structural, Debug)]
pub enum Platform {
    MacOs,
    Linux,
    Windows,
}

impl Platform {
    /// Platforms without cooperative process groups need an explicit,
    /// recursive, forceful kill of the child's process tree, followed by
    /// polling until the process identifier is confirmed gone.
    pub open spec fn spec_needs_tree_kill(self) -> bool {
        self is Windows
    }

    #[verifier::when_used_as_spec(spec_needs_tree_kill)]
    pub fn needs_tree_kill(self) -> (r: bool)
        ensures
            r == self.spec_needs_tree_kill(),
    {
        match self {
            Platform::Windows => true,
            Platform::MacOs => false,
            Platform::Linux => false,
        }
    }
}

} // verus!
