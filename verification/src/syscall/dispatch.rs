//! The numbers of the file syscalls, and which operation each one asks for
use vstd::prelude::*;
use crate::syscall::error::SyscallError;

verus! {

/// Each syscall has a unique syscall number
pub struct SyscallNumber;

/// The open syscall opens a new file descriptor
pub const OPEN: u64 = 0;

/// The close syscall closes a file descriptor
pub const CLOSE: u64 = 1;

/// The read syscall reads a file descriptor
pub const READ: u64 = 2;

/// The write syscall writes a file descriptor
pub const WRITE: u64 = 3;

/// The file operations that the syscalls ask for
#[derive(Debug, Clone, Copy, PartialEq, Eq, Structural)]
pub enum FileSyscall {
    /// Open a new file descriptor for a path
    Open,
    /// Close a file descriptor
    Close,
    /// Read from a file descriptor into a buffer
    Read,
    /// Write a buffer to a file descriptor
    Write,
}

/// The operation a syscall number asks for, if it is one of the file syscalls
pub open spec fn file_syscall_spec(syscall: u64) -> Option<FileSyscall> {
    if syscall == OPEN {
        Some(FileSyscall::Open)
    } else if syscall == CLOSE {
        Some(FileSyscall::Close)
    } else if syscall == READ {
        Some(FileSyscall::Read)
    } else if syscall == WRITE {
        Some(FileSyscall::Write)
    } else {
        None
    }
}

/// Decide which operation a syscall number asks for; any other number has no handler
pub fn decode(syscall: u64) -> (call: Result<FileSyscall, SyscallError>)
    ensures
        call == match file_syscall_spec(syscall) {
            Some(op) => Ok::<FileSyscall, SyscallError>(op),
            None => Err::<FileSyscall, SyscallError>(SyscallError::NotFound),
        },
{
    match syscall {
        OPEN => Ok(FileSyscall::Open),
        CLOSE => Ok(FileSyscall::Close),
        READ => Ok(FileSyscall::Read),
        WRITE => Ok(FileSyscall::Write),
        _ => Err(SyscallError::NotFound),
    }
}

} // verus!
