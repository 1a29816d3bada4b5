//! Deployment workflow engine for publishing and upgrading on-chain programs.
//!
//! The library covers version resolution, artifact path derivation,
//! idempotency checks against live network state, and the step-by-step
//! protocols for a first deployment and for an in-place upgrade. All
//! process spawning and file I/O stays with the caller; the library
//! decides which command comes next and computes its inputs.

use vstd::prelude::*;

pub mod commands;
pub mod network;
pub mod paths;
pub mod staging;
pub mod version;
pub mod workflow;
pub mod workspace;

verus! {

/// The failures the workflow engine can report.
#[derive(Clone, Copy, Debug, PartialEq, Eq, Structural)]
pub enum FleetError {
    /// The program manifest is missing or its version cannot be read.
    ManifestRead,
    /// The requested network name is not known to the registry.
    UnknownNetwork,
    /// A filesystem operation failed.
    Io,
    /// The program-state query command could not be invoked.
    Probe,
    /// A staged external command returned a non-zero exit status.
    ExternalCommandFailure,
    /// Archived artifacts already exist for the requested version.
    DuplicateVersion,
    /// The upgrade-authority credential setting is absent.
    MissingCredential,
    /// An upgrade was requested for a program that is not deployed.
    ProgramNotDeployed,
}

} // verus!
