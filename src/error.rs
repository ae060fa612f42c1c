//! Failures of the service-side operations.

use vstd::prelude::*;

verus! {

/// Why starting, stopping or running a maintenance command did not succeed.
#[derive(Debug, PartialEq, Eq)]
pub enum ServiceError {
    /// No directory from the current one up to the filesystem root holds the marker file.
    RootNotFound,
    /// The tear-down command ran and exited unsuccessfully.
    ServiceCommandFailed { stderr: String },
    /// The maintenance command ran and exited unsuccessfully.
    SetupCommandFailed { stderr: String },
    /// The external command could not be launched at all.
    SpawnFailed(String),
}

} // verus!
