//! The execution core of a micro-VM sandbox: the vocabulary of vCPU exits,
//! the arbiter of guest memory accesses and the map of guest regions, the
//! decisions of the run loop, the cancellation handle with the laws of its
//! protocol, and the negotiation of the guest's log level.
//!
//! Nothing here talks to a hypervisor, sends a signal or sleeps: the caller
//! owns the backend and the loops, and asks this crate what to do next.

pub mod error;
pub mod exit;
pub mod interrupt;
pub mod log_level;
pub mod mem_access;
pub mod memory_map;
pub mod memory_region;
pub mod protocol;
pub mod vcpu;
