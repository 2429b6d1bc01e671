//! Code for working with file descriptors
use vstd::prelude::*;
use crate::vfs::inode::INodeId;

verus! {

/// The file descriptor id points to a file descriptor
#[derive(Debug, Clone, Copy, PartialEq, Eq, Structural)]
pub struct FileDescriptorId(pub usize);

impl FileDescriptorId {
    /// Create a new file descriptor id
    pub fn new(id: usize) -> (fd: FileDescriptorId)
        ensures
            fd.0 == id,
    {
        FileDescriptorId(id)
    }

    /// The number of the descriptor
    pub fn value(&self) -> (value: usize)
        ensures
            value == self.0,
    {
        self.0
    }
}

/// A file descriptor represents an open file. It holds the inode id and descriptor state
#[derive(Debug, Clone, Copy, PartialEq, Eq, Structural)]
pub struct FileDescriptor {
    pub inode_id: INodeId,
    pub offset: u64,
}

impl FileDescriptor {
    /// Create a new file descriptor
    pub fn new(inode_id: INodeId, offset: u64) -> (fd: FileDescriptor)
        ensures
            fd.inode_id == inode_id,
            fd.offset == offset,
    {
        FileDescriptor { inode_id, offset }
    }
}

} // verus!
