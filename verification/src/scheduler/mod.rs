//! The saved state of tasks and the errors of the scheduler
pub mod context;
pub mod error;
pub mod proc;
