//! The decisions of the run loop: what follows each exit of the vCPU.
//!
//! The loop itself belongs to the caller, who owns the backend: it runs the
//! vCPU, hands the exit to `VirtualCPU::handle_exit`, does what the answer
//! says and, unless the answer ends the run, runs the vCPU again.

use crate::error::HyperlightError;
use crate::exit::{HyperlightExit, VcpuStopReason};
use crate::memory_region::MemoryRegionFlags;
use vstd::prelude::*;

verus! {

/// How a run ends in an error, and what is done before the error is
/// returned. The crashdump and the notice to the debugger may fail without
/// consequence: the error of the run stands. An error of the memory-access
/// hook is returned in place of `error`.
#[derive(Debug, PartialEq, Eq)]
pub struct FatalExit {
    /// The error that the run returns.
    pub error: HyperlightError,
    /// Whether the state of the guest is written to a crashdump first.
    pub crashdump: bool,
    /// Whether the memory-access hook of the memory manager runs, after the
    /// crashdump.
    pub mem_access_hook: bool,
    /// Whether a debugger that is attached is told of the crash, after the
    /// crashdump.
    pub notify_debugger: bool,
    /// Whether the count of cancelled guests goes up by one.
    pub count_cancellation: bool,
}

/// What the run loop does after an exit of the vCPU.
#[derive(Debug, PartialEq, Eq)]
pub enum RunStep {
    /// Run the vCPU again.
    Continue,
    /// The guest halted: the run is over and has succeeded.
    Finish,
    /// Let the backend complete the write to the port (port, bytes,
    /// instruction pointer, length of the instruction), then run the vCPU
    /// again; an error of the backend ends the run.
    HandleIo(u16, Vec<u8>, u64, u64),
    /// Let the backend serve the debug event, then run the vCPU again; an
    /// error of the backend ends the run.
    HandleDebug(VcpuStopReason),
    /// The run is over and has failed.
    Fail(FatalExit),
}

/// A virtual CPU that is run until the guest halts or the run fails.
pub struct VirtualCPU {}

impl VirtualCPU {
    /// The end of a run in `error` after a crash of the guest: with a
    /// crashdump, and with a notice to the debugger where `notify_debugger`
    /// says so.
    pub open spec fn crash(error: HyperlightError, notify_debugger: bool) -> RunStep {
        RunStep::Fail(
            FatalExit {
                error,
                crashdump: true,
                mem_access_hook: false,
                notify_debugger,
                count_cancellation: false,
            },
        )
    }

    /// What follows the outcome `exit` of one step of the backend.
    pub open spec fn next_step(exit: Result<HyperlightExit, HyperlightError>) -> RunStep {
        match exit {
            Ok(HyperlightExit::Retry()) => RunStep::Continue,
            Ok(HyperlightExit::Halt()) => RunStep::Finish,
            Ok(HyperlightExit::IoOut(port, data, rip, instruction_length)) => RunStep::HandleIo(
                port,
                data,
                rip,
                instruction_length,
            ),
            Ok(HyperlightExit::Debug(reason)) => RunStep::HandleDebug(reason),
            Ok(HyperlightExit::Mmio(addr)) => RunStep::Fail(
                FatalExit {
                    error: HyperlightError::MmioAt(addr),
                    crashdump: true,
                    mem_access_hook: true,
                    notify_debugger: false,
                    count_cancellation: false,
                },
            ),
            Ok(HyperlightExit::AccessViolation(addr, tried, region)) => if !region@.disjoint(
                MemoryRegionFlags::stack_guard()@,
            ) {
                Self::crash(HyperlightError::StackOverflow(), true)
            } else {
                Self::crash(HyperlightError::MemoryAccessViolation(addr, tried, region), true)
            },
            Ok(HyperlightExit::Cancelled()) => RunStep::Fail(
                FatalExit {
                    error: HyperlightError::ExecutionCanceledByHost(),
                    crashdump: false,
                    mem_access_hook: false,
                    notify_debugger: false,
                    count_cancellation: true,
                },
            ),
            Ok(HyperlightExit::Unknown(reason)) => Self::crash(
                HyperlightError::UnexpectedExit(reason),
                true,
            ),
            Err(error) => Self::crash(error, true),
        }
    }

    /// Decides what the run loop does with the outcome of one step of the
    /// backend. Only `Retry`, an I/O write and a debug event let the run go
    /// on; a halt ends it in success and everything else in an error.
    pub fn handle_exit(exit: Result<HyperlightExit, HyperlightError>) -> (step: RunStep)
        ensures
            step == Self::next_step(exit),
    {
        match exit {
            Ok(HyperlightExit::Debug(reason)) => RunStep::HandleDebug(reason),
            Ok(HyperlightExit::Halt()) => RunStep::Finish,
            Ok(HyperlightExit::IoOut(port, data, rip, instruction_length)) => RunStep::HandleIo(
                port,
                data,
                rip,
                instruction_length,
            ),
            Ok(HyperlightExit::Mmio(addr)) => RunStep::Fail(
                FatalExit {
                    error: HyperlightError::MmioAt(addr),
                    crashdump: true,
                    mem_access_hook: true,
                    notify_debugger: false,
                    count_cancellation: false,
                },
            ),
            Ok(HyperlightExit::AccessViolation(addr, tried, region_permission)) => {
                let error = if region_permission.intersects(MemoryRegionFlags::stack_guard()) {
                    HyperlightError::StackOverflow()
                } else {
                    HyperlightError::MemoryAccessViolation(addr, tried, region_permission)
                };
                Self::fail_after_crash(error)
            },
            Ok(HyperlightExit::Cancelled()) => RunStep::Fail(
                FatalExit {
                    error: HyperlightError::ExecutionCanceledByHost(),
                    crashdump: false,
                    mem_access_hook: false,
                    notify_debugger: false,
                    count_cancellation: true,
                },
            ),
            Ok(HyperlightExit::Unknown(reason)) => Self::fail_after_crash(
                HyperlightError::UnexpectedExit(reason),
            ),
            Ok(HyperlightExit::Retry()) => RunStep::Continue,
            Err(error) => Self::fail_after_crash(error),
        }
    }

    fn fail_after_crash(error: HyperlightError) -> (step: RunStep)
        ensures
            step == Self::crash(error, true),
    {
        RunStep::Fail(
            FatalExit {
                error,
                crashdump: true,
                mem_access_hook: false,
                notify_debugger: true,
                count_cancellation: false,
            },
        )
    }
}

} // verus!
