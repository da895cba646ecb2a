//! Scheduling metadata carried by each process and consumed by the external
//! scheduler loop: priority class, current run-queue membership, and the
//! outcome of the last timeslice.

use vstd::prelude::*;

verus! {

/// Scheduling priority: selects the run queue used when the process is
/// scheduled.
#[derive(Debug, Copy, Clone, PartialEq, Eq, Structural)]
pub enum Prio {
    High,
    Normal,
    Low,
}

/// The scheduler queue where a process is currently registered.
#[derive(Debug, Copy, Clone, PartialEq, Eq, Structural)]
pub enum Queue {
    /// Not registered in any queue.
    NoQueue,
    High,
    Normal,
    Low,
    TimedWait,
    InfiniteWait,
}

/// Result of the last scheduled timeslice for a process, updated by the VM
/// loop between timeslices.
#[derive(Debug, Copy, Clone, PartialEq, Eq, Structural)]
pub enum SliceResult {
    /// No timeslice has completed yet.
    NotRun,
    Yield,
    Wait,
    Finished,
    Exception,
}

} // verus!
