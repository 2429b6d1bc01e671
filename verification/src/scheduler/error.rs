//! Scheduler errors
use vstd::prelude::*;

verus! {

/// A scheduler error
#[derive(Debug, Clone, Copy, PartialEq, Eq, Structural)]
pub enum SchedulerError {
    OutOfPid,
    NoSuchPid,
}

impl SchedulerError {
    /// The human readable message of the error.
    pub fn message(&self) -> (message: &'static str)
        ensures
            message@ == match self {
                SchedulerError::OutOfPid => "out of process identifiers"@,
                SchedulerError::NoSuchPid => "no such process identifier"@,
            },
    {
        match self {
            SchedulerError::OutOfPid => "out of process identifiers",
            SchedulerError::NoSuchPid => "no such process identifier",
        }
    }
}

} // verus!
