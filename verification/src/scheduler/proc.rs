//! Processes
use vstd::prelude::*;

verus! {

/// A process id
pub type ProcId = usize;

/// A task id
pub type TaskId = usize;

/// The process table holds all active processes
pub struct ProcTable {
    pub procs: Vec<Proc>,
}

/// A process, there can be multiple tasks under the same process
pub struct Proc {
    pub tasks: Vec<TaskId>,
}

} // verus!
