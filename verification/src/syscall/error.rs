//! Syscall error
use vstd::prelude::*;

verus! {

/// An error inside a syscall handler
pub trait HandlerError {
    fn error_code(&self) -> u64;
}

impl HandlerError for () {
    fn error_code(&self) -> (code: u64)
        ensures
            code == 0,
    {
        0
    }
}

/// The offset added to the code of an error that a handler reports.
pub const HANDLER_ERROR_BASE: u64 = 0x1000;

/// A syscall error
#[derive(Debug, Clone, Copy, PartialEq, Eq, Structural)]
pub enum SyscallError {
    /// No handler is registered for the syscall number
    NotFound,
    /// An error occured inside the syscall handler, with the handler's own error code
    HandlerError(u64),
}

impl SyscallError {
    /// The error code of an error: 1 where no handler is registered, the handler's error code
    /// plus 0x1000 for handler errors (wrapping around at 2^64)
    pub open spec fn error_code_spec(self) -> u64 {
        match self {
            SyscallError::NotFound => 1,
            SyscallError::HandlerError(code) => ((code + HANDLER_ERROR_BASE) % 0x1_0000_0000_0000_0000) as u64,
        }
    }

    /// The syscall error for an error inside a handler: it carries the handler error's code
    pub fn handler_error<E: HandlerError>(err: &E) -> (error: SyscallError)
        ensures
            exists|code: u64| error == SyscallError::HandlerError(code) && call_ensures(E::error_code, (err,), code),
    {
        SyscallError::HandlerError(err.error_code())
    }

    /// Return the error code. Handler errors are always error_code + 0x1000
    pub fn error_code(&self) -> (code: u64)
        ensures
            code == self.error_code_spec(),
    {
        match self {
            SyscallError::NotFound => 1,
            SyscallError::HandlerError(code) => code.wrapping_add(HANDLER_ERROR_BASE),
        }
    }
}

} // verus!
