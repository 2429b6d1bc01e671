//! Error handling in the VFS
use vstd::prelude::*;

verus! {

/// Virtual file system errors
#[derive(Debug, Clone, Copy, PartialEq, Eq, Structural)]
pub enum VfsError {
    /// The offset is beyond EOF
    OutOfBounds,
    /// The requested file does not exist
    NoSuchFile,
    /// The bitmap allocator for file descriptor and inode id's failed to find a free id
    OutOfId,
    /// Unsupported feature
    Unsupported,
}

impl VfsError {
    /// The human readable message of the error.
    pub fn message(&self) -> (message: &'static str)
        ensures
            message@ == match self {
                VfsError::OutOfBounds => "out of bounds"@,
                VfsError::NoSuchFile => "no such file"@,
                VfsError::OutOfId => "out of id"@,
                VfsError::Unsupported => "unsupported feature"@,
            },
    {
        match self {
            VfsError::OutOfBounds => "out of bounds",
            VfsError::NoSuchFile => "no such file",
            VfsError::OutOfId => "out of id",
            VfsError::Unsupported => "unsupported feature",
        }
    }
}

} // verus!
