//! The vocabulary in which every backend reports why a vCPU stopped.

use crate::memory_region::MemoryRegionFlags;
use vstd::prelude::*;

verus! {

/// Why a vCPU stopped for the debugger.
#[derive(Clone, Copy, Debug, PartialEq, Eq, Structural)]
pub enum VcpuStopReason {
    /// The guest crashed; the debugger is told before the error surfaces.
    Crash,
    /// A single step is done.
    DoneStep,
    /// The breakpoint that holds the guest at its entry point was hit.
    EntryPointBp,
    /// A hardware breakpoint was hit.
    HwBp,
    /// A software breakpoint was hit.
    SwBp,
    /// The debugger interrupted the guest.
    Interrupt,
    /// The vCPU stopped for a reason the debugger does not know.
    Unknown,
}

/// The reasons for which a vCPU hands control back to the host. Each backend
/// maps its own exit codes to exactly one of them.
#[derive(Debug, PartialEq, Eq)]
pub enum HyperlightExit {
    /// The vCPU stopped for a debug event.
    Debug(VcpuStopReason),
    /// The guest executed the halt instruction: a run ends normally.
    Halt(),
    /// The guest wrote the bytes to the port; the last two fields are the
    /// instruction pointer and the length of the instruction.
    IoOut(u16, Vec<u8>, u64, u64),
    /// The guest touched a guest physical address that no region covers.
    Mmio(u64),
    /// The guest touched the address without the permissions it needed:
    /// first the flags of the attempted access, then those of the region.
    AccessViolation(u64, MemoryRegionFlags, MemoryRegionFlags),
    /// The run was cancelled through the interrupt handle.
    Cancelled(),
    /// The vCPU stopped for a reason that nothing here explains.
    Unknown(String),
    /// A transient condition: the vCPU is to be run again.
    Retry(),
}

/// The guest registers that are exposed for tracing and stack unwinding.
#[derive(Clone, Copy, Debug, PartialEq, Eq, Structural)]
pub enum TraceRegister {
    /// The accumulator.
    RAX,
    /// The counter.
    RCX,
    /// The instruction pointer.
    RIP,
    /// The stack pointer.
    RSP,
    /// The frame pointer.
    RBP,
}

} // verus!
