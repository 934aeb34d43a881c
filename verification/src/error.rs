//! The errors with which a run of the vCPU ends.

use crate::memory_region::MemoryRegionFlags;
use vstd::prelude::*;

verus! {

/// Every error is fatal to the run in which it arises.
#[derive(Debug, PartialEq, Eq)]
pub enum HyperlightError {
    /// The host cancelled the run through the interrupt handle.
    ExecutionCanceledByHost(),
    /// The guest touched a stack guard region.
    StackOverflow(),
    /// The guest touched the address without the permissions it needed:
    /// first the flags of the attempted access, then those of the region.
    MemoryAccessViolation(u64, MemoryRegionFlags, MemoryRegionFlags),
    /// The vCPU stopped for a reason that nothing explains.
    UnexpectedExit(String),
    /// The backend failed to run the vCPU or to serve a request.
    BackendFailure(String),
    /// The guest touched a guest physical address that no region covers.
    MmioAt(u64),
}

} // verus!
