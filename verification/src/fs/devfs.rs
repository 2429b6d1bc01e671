//! The device file system is an interface for the device manager trough the virtual file system
use vstd::prelude::*;
use crate::vfs::error::VfsError;
use crate::vfs::inode::INodeNumber;

verus! {

/// The device file system
#[derive(Debug, Clone, Copy, Default)]
pub struct DevFs;

impl DevFs {
    /// Lookup is not supported yet
    pub fn lookup(&self, _parent: INodeNumber, _name: &str) -> (result: Result<INodeNumber, VfsError>)
        ensures
            result == Err::<INodeNumber, VfsError>(VfsError::Unsupported),
    {
        Err(VfsError::Unsupported)
    }

    /// Directories cannot be created
    pub fn create_dir(&self, _parent: INodeNumber, _name: &str) -> (result: Result<(), VfsError>)
        ensures
            result == Err::<(), VfsError>(VfsError::Unsupported),
    {
        Err(VfsError::Unsupported)
    }

    /// Reading is not supported yet
    pub fn read(&self, _inode_num: INodeNumber, _offset: u64, _buf: &mut [u8]) -> (result: Result<u64, VfsError>)
        ensures
            result == Err::<u64, VfsError>(VfsError::Unsupported),
            final(_buf)@ == old(_buf)@,
    {
        Err(VfsError::Unsupported)
    }

    /// Writing is not supported yet
    pub fn write(&self, _inode_num: INodeNumber, _offset: u64, _buf: &[u8]) -> (result: Result<u64, VfsError>)
        ensures
            result == Err::<u64, VfsError>(VfsError::Unsupported),
    {
        Err(VfsError::Unsupported)
    }
}

} // verus!
