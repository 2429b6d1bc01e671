//! Handling of syscalls: the table of handlers, the numbers of the file syscalls and the
//! errors a syscall returns.
pub mod error;
pub mod register;
pub mod dispatch;
