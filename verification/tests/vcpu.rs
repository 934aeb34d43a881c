use hyperlight_vcpu::error::HyperlightError;
use hyperlight_vcpu::exit::{HyperlightExit, VcpuStopReason};
use hyperlight_vcpu::mem_access::get_memory_access_violation;
use hyperlight_vcpu::memory_region::{MemoryRegion, MemoryRegionFlags};
use hyperlight_vcpu::vcpu::{FatalExit, RunStep, VirtualCPU};

/// Drives the decisions over a script of backend outcomes, as a run loop
/// does over a backend: returns the result of the run, the number of backend
/// steps taken and the ports that were written to.
fn drive(script: Vec<Result<HyperlightExit, HyperlightError>>) -> (Option<Result<(), FatalExit>>, usize, Vec<u16>) {
    let mut steps = 0;
    let mut ports = Vec::new();
    for outcome in script {
        steps += 1;
        match VirtualCPU::handle_exit(outcome) {
            RunStep::Continue => {}
            RunStep::Finish => return (Some(Ok(())), steps, ports),
            RunStep::HandleIo(port, _, _, _) => ports.push(port),
            RunStep::HandleDebug(_) => {}
            RunStep::Fail(fatal) => return (Some(Err(fatal)), steps, ports),
        }
    }
    (None, steps, ports)
}

#[test]
fn clean_halt_ends_after_one_step() {
    assert_eq!(VirtualCPU::handle_exit(Ok(HyperlightExit::Halt())), RunStep::Finish);
    let (result, steps, ports) = drive(vec![Ok(HyperlightExit::Halt()), Ok(HyperlightExit::Retry())]);
    assert_eq!(result, Some(Ok(())));
    assert_eq!(steps, 1);
    assert!(ports.is_empty());
}

#[test]
fn host_call_then_halt() {
    assert_eq!(
        VirtualCPU::handle_exit(Ok(HyperlightExit::IoOut(0x50, vec![0x01], 0x1000, 2))),
        RunStep::HandleIo(0x50, vec![0x01], 0x1000, 2)
    );
    let (result, steps, ports) =
        drive(vec![Ok(HyperlightExit::IoOut(0x50, vec![0x01], 0x1000, 2)), Ok(HyperlightExit::Halt())]);
    assert_eq!(result, Some(Ok(())));
    assert_eq!(steps, 2);
    assert_eq!(ports, vec![0x50]);
}

#[test]
fn stack_overflow_on_guard_region() {
    let guard = MemoryRegionFlags::stack_guard().union(MemoryRegionFlags::read()).union(MemoryRegionFlags::write());
    let regions = vec![MemoryRegion::new(0x4000, 0x5000, guard)];
    let exit = get_memory_access_violation(0x4010, &regions, MemoryRegionFlags::write());
    assert_eq!(exit, Some(HyperlightExit::AccessViolation(0x4010, MemoryRegionFlags::write(), guard)));
    let (result, steps, _) = drive(vec![Ok(exit.unwrap())]);
    assert_eq!(steps, 1);
    assert_eq!(
        result,
        Some(Err(FatalExit {
            error: HyperlightError::StackOverflow(),
            crashdump: true,
            mem_access_hook: false,
            notify_debugger: true,
            count_cancellation: false,
        }))
    );
}

#[test]
fn access_violation_without_guard() {
    let step = VirtualCPU::handle_exit(Ok(HyperlightExit::AccessViolation(
        0x2010,
        MemoryRegionFlags::write(),
        MemoryRegionFlags::read(),
    )));
    assert_eq!(
        step,
        RunStep::Fail(FatalExit {
            error: HyperlightError::MemoryAccessViolation(0x2010, MemoryRegionFlags::write(), MemoryRegionFlags::read()),
            crashdump: true,
            mem_access_hook: false,
            notify_debugger: true,
            count_cancellation: false,
        })
    );
}

#[test]
fn mmio_on_unmapped_address() {
    let regions = vec![MemoryRegion::new(0x4000, 0x5000, MemoryRegionFlags::read())];
    assert_eq!(get_memory_access_violation(0x9000, &regions, MemoryRegionFlags::read()), None);
    let (result, steps, _) = drive(vec![Ok(HyperlightExit::Mmio(0x9000))]);
    assert_eq!(steps, 1);
    assert_eq!(
        result,
        Some(Err(FatalExit {
            error: HyperlightError::MmioAt(0x9000),
            crashdump: true,
            mem_access_hook: true,
            notify_debugger: false,
            count_cancellation: false,
        }))
    );
}

#[test]
fn cancelled_exit_counts_and_fails() {
    let (result, steps, _) = drive(vec![Ok(HyperlightExit::Retry()), Ok(HyperlightExit::Cancelled())]);
    assert_eq!(steps, 2);
    assert_eq!(
        result,
        Some(Err(FatalExit {
            error: HyperlightError::ExecutionCanceledByHost(),
            crashdump: false,
            mem_access_hook: false,
            notify_debugger: false,
            count_cancellation: true,
        }))
    );
}

#[test]
fn unknown_exit_is_fatal() {
    assert_eq!(
        VirtualCPU::handle_exit(Ok(HyperlightExit::Unknown("shutdown".to_string()))),
        RunStep::Fail(FatalExit {
            error: HyperlightError::UnexpectedExit("shutdown".to_string()),
            crashdump: true,
            mem_access_hook: false,
            notify_debugger: true,
            count_cancellation: false,
        })
    );
}

#[test]
fn backend_error_is_returned_as_it_is() {
    assert_eq!(
        VirtualCPU::handle_exit(Err(HyperlightError::BackendFailure("ioctl failed".to_string()))),
        RunStep::Fail(FatalExit {
            error: HyperlightError::BackendFailure("ioctl failed".to_string()),
            crashdump: true,
            mem_access_hook: false,
            notify_debugger: true,
            count_cancellation: false,
        })
    );
}

#[test]
fn retry_and_debug_keep_running() {
    assert_eq!(VirtualCPU::handle_exit(Ok(HyperlightExit::Retry())), RunStep::Continue);
    assert_eq!(
        VirtualCPU::handle_exit(Ok(HyperlightExit::Debug(VcpuStopReason::SwBp))),
        RunStep::HandleDebug(VcpuStopReason::SwBp)
    );
    let (result, steps, _) = drive(vec![
        Ok(HyperlightExit::Retry()),
        Ok(HyperlightExit::Debug(VcpuStopReason::DoneStep)),
        Ok(HyperlightExit::Retry()),
    ]);
    assert_eq!(result, None);
    assert_eq!(steps, 3);
}
