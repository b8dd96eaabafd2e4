//! The failures a host operation can report.

use vstd::prelude::*;

verus! {

/// Why bootstrapping a handle or running an operation on it failed.
///
/// Every failure is reported to the immediate caller; none is retried and none
/// is replaced by a fallback value.
#[derive(Clone, Copy, Debug, PartialEq, Eq, Structural)]
pub enum HostError {
    /// No compiled module could be resolved for the requested runtime.
    ArtifactNotFound,
    /// The module could not be instantiated against the assembled imports.
    InstantiationFailed,
    /// A required function or memory export is absent from the instance.
    ExportMissing,
    /// A payload does not fit in the linear memory behind the buffer offset.
    MemoryAccessFault,
    /// The guest faulted while running an exported function.
    GuestTrap,
    /// A request could not be encoded, or a response could not be decoded.
    SerializationError,
    /// An operation was attempted while another one holds the instance.
    Busy,
}

} // verus!
