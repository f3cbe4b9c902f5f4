//! The ways in which the service can fail.

use vstd::prelude::*;

verus! {

/// Every failure of the service, by its cause.
#[derive(Clone, Copy, Debug, PartialEq, Eq, Structural)]
pub enum Fault {
    /// The module directory could not be listed.
    DirectoryUnreadable,
    /// A module file could not be loaded.
    ArtifactLoadFailed,
    /// No module is cached under the requested name.
    ModuleNotFound,
    /// No execution context could be built under the limits.
    ResourceLimitConstructionFailed,
    /// The run ended in a trap or in an error of the engine.
    RunTrapped,
    /// The run was suspended where no endpoint expects it.
    RunYielded,
    /// The module reported a value of another type than the endpoint's.
    ResultTypeMismatch,
    /// The module returned without reporting a value.
    ResultAbsent,
    /// A text is not well-formed.
    MalformedText,
    /// A report names memory outside the sandbox's heap.
    OutOfBoundsResultRead,
}

} // verus!
