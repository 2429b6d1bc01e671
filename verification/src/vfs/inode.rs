//! Code for working with inodes
use vstd::prelude::*;
use crate::fs::devfs::DevFs;
use crate::fs::initramfs::{InitramFs, initramfs_lookup_spec};
use crate::fs::procfs::{ProcFs, proc_lookup_spec, file_bits};
use crate::fs::rootfs::RootFs;
use crate::vfs::error::VfsError;

verus! {

/// An inode id points to an inode globally in the inode cache
pub type INodeId = usize;

/// An inode number points to an inode within a specific file system and stores a generation number
/// which is incremented on each reuse to invalidate stale cache entries
#[derive(Debug, Clone, Copy, PartialEq, Eq, Structural)]
pub struct INodeNumber {
    pub num: u128,
    pub generation: Option<u64>,
}

impl INodeNumber {
    /// Create a new inode number, if generation is true then a generation number will be used
    ///
    /// Inode numbers MUST be deterministic OR one time use if you don't use a generation number
    pub fn new(num: u128, generation: bool) -> (inode_num: INodeNumber)
        ensures
            inode_num.num == num,
            inode_num.generation == (if generation { Some(1u64) } else { None }),
    {
        INodeNumber { num, generation: if generation { Some(1) } else { None } }
    }

    /// The number within the file system
    pub fn value(&self) -> (value: u128)
        ensures
            value == self.num,
    {
        self.num
    }

    /// Reuse a inode number. The generation will be incremented if the inode number has generation
    /// numbers enabled
    pub fn reuse(self) -> (inode_num: INodeNumber)
        requires
            self.generation != Some(u64::MAX),
        ensures
            inode_num.num == self.num,
            inode_num.generation == match self.generation {
                Some(g) => Some((g + 1) as u64),
                None => None,
            },
    {
        INodeNumber {
            num: self.num,
            generation: match self.generation {
                Some(generation) => Some(generation + 1),
                None => None,
            },
        }
    }
}

/// An inode is a node in the virtual file system: an inode number within one of the mounted
/// file systems, which the virtual file system keeps by index.
#[derive(Debug, Clone, Copy, PartialEq, Eq, Structural)]
pub struct INode {
    pub fs: usize,
    pub inode_num: INodeNumber,
}

/// What looking `name` up under the inode `inode` gives: an inode of the same file system.
pub open spec fn inode_lookup_spec(filesystems: Seq<FileSystem>, inode: INode, name: Seq<char>) -> Result<INode, VfsError> {
    if inode.fs >= filesystems.len() {
        Err(VfsError::NoSuchFile)
    } else {
        match filesystems[inode.fs as int].lookup_spec(inode.inode_num, name) {
            Ok(num) => Ok(INode { fs: inode.fs, inode_num: num }),
            Err(e) => Err(e),
        }
    }
}

impl INode {
    /// Create a new inode
    pub fn new(inode_num: INodeNumber, fs: usize) -> (inode: INode)
        ensures
            inode.inode_num == inode_num,
            inode.fs == fs,
    {
        INode { fs, inode_num }
    }

    /// Lookup an inode child in the file system the inode belongs to
    pub fn lookup(&self, filesystems: &Vec<FileSystem>, name: &str) -> (inode: Result<INode, VfsError>)
        requires
            forall|i: int| 0 <= i < filesystems@.len() ==> (#[trigger] filesystems@[i]).wf(),
        ensures
            inode == inode_lookup_spec(filesystems@, *self, name@),
    {
        if self.fs >= filesystems.len() {
            return Err(VfsError::NoSuchFile);
        }
        match filesystems[self.fs].lookup(self.inode_num, name) {
            Ok(num) => Ok(INode::new(num, self.fs)),
            Err(err) => Err(err),
        }
    }

    /// Create a subdirectory in the file system the inode belongs to
    pub fn create_dir(&self, filesystems: &mut Vec<FileSystem>, name: &str) -> (result: Result<(), VfsError>)
        requires
            forall|i: int| 0 <= i < old(filesystems)@.len() ==> (#[trigger] old(filesystems)@[i]).wf(),
        ensures
            forall|i: int| 0 <= i < final(filesystems)@.len() ==> (#[trigger] final(filesystems)@[i]).wf(),
            self.fs >= old(filesystems)@.len() ==> {
                &&& result == Err::<(), VfsError>(VfsError::NoSuchFile)
                &&& final(filesystems)@ == old(filesystems)@
            },
            self.fs < old(filesystems)@.len() ==> {
                &&& final(filesystems)@ == old(filesystems)@.update(self.fs as int, final(filesystems)@[self.fs as int])
                &&& create_dir_post(old(filesystems)@[self.fs as int], final(filesystems)@[self.fs as int], name@, result)
            },
    {
        if self.fs >= filesystems.len() {
            return Err(VfsError::NoSuchFile);
        }
        let result = filesystems[self.fs].create_dir(self.inode_num, name);
        proof {
            assert forall|i: int| 0 <= i < filesystems@.len() implies (#[trigger] filesystems@[i]).wf() by {}
        }
        result
    }
}

/// An underlying file system: one of the file systems this kernel implements.
pub enum FileSystem {
    Root(RootFs),
    Proc(ProcFs),
    Dev(DevFs),
    Initramfs(InitramFs),
}

/// How creating the directory `name` changes a file system and what it returns: the root file
/// system gives the directory the next inode number (replacing one of the same name) until
/// its numbers run out; the others refuse with `Unsupported` and stay as they are.
pub open spec fn create_dir_post(
    old_fs: FileSystem,
    new_fs: FileSystem,
    name: Seq<char>,
    result: Result<(), VfsError>,
) -> bool {
    match old_fs {
        FileSystem::Root(old_root) => match new_fs {
            FileSystem::Root(new_root) => {
                &&& old_root.last_number() == u128::MAX ==> {
                    &&& result == Err::<(), VfsError>(VfsError::OutOfId)
                    &&& new_root@ == old_root@
                    &&& new_root.last_number() == old_root.last_number()
                }
                &&& old_root.last_number() < u128::MAX ==> {
                    &&& result == Ok::<(), VfsError>(())
                    &&& new_root.last_number() == old_root.last_number() + 1
                    &&& new_root@ == old_root@.insert(
                        name,
                        INodeNumber { num: new_root.last_number(), generation: None },
                    )
                }
            },
            _ => false,
        },
        _ => {
            &&& result == Err::<(), VfsError>(VfsError::Unsupported)
            &&& new_fs == old_fs
        },
    }
}

impl FileSystem {
    /// The invariant of the file system's own state.
    pub open spec fn wf(&self) -> bool {
        match self {
            FileSystem::Root(fs) => fs.wf(),
            _ => true,
        }
    }

    /// What looking `name` up under `parent` gives.
    pub open spec fn lookup_spec(&self, parent: INodeNumber, name: Seq<char>) -> Result<INodeNumber, VfsError> {
        match self {
            FileSystem::Root(fs) => fs.lookup_spec(name),
            FileSystem::Proc(_) => proc_lookup_spec(parent.num, name),
            FileSystem::Dev(_) => Err(VfsError::Unsupported),
            FileSystem::Initramfs(fs) => initramfs_lookup_spec(fs@, parent.num, name),
        }
    }

    /// Lookup an inode child from parent
    pub fn lookup(&self, parent: INodeNumber, name: &str) -> (inode_num: Result<INodeNumber, VfsError>)
        requires
            self.wf(),
        ensures
            inode_num == self.lookup_spec(parent, name@),
    {
        match self {
            FileSystem::Root(fs) => fs.lookup(parent, name),
            FileSystem::Proc(fs) => fs.lookup(parent, name),
            FileSystem::Dev(fs) => fs.lookup(parent, name),
            FileSystem::Initramfs(fs) => fs.lookup(parent, name),
        }
    }

    /// Create a subdirectory under parent. Only the root file system holds directories that
    /// can be created; the others refuse with `Unsupported` and stay as they are.
    pub fn create_dir(&mut self, parent: INodeNumber, name: &str) -> (result: Result<(), VfsError>)
        requires
            old(self).wf(),
        ensures
            final(self).wf(),
            create_dir_post(*old(self), *final(self), name@, result),
    {
        match self {
            FileSystem::Root(fs) => fs.create_dir(parent, name),
            FileSystem::Proc(fs) => fs.create_dir(parent, name),
            FileSystem::Dev(fs) => fs.create_dir(parent, name),
            FileSystem::Initramfs(fs) => fs.create_dir(parent, name),
        }
    }

    /// Read from an inode into `buf`
    pub fn read(&self, inode_num: INodeNumber, offset: u64, buf: &mut [u8]) -> (result: Result<u64, VfsError>)
        ensures
            match self {
                FileSystem::Root(_) => result == Err::<u64, VfsError>(VfsError::Unsupported)
                    && final(buf)@ == old(buf)@,
                FileSystem::Dev(_) => result == Err::<u64, VfsError>(VfsError::Unsupported)
                    && final(buf)@ == old(buf)@,
                FileSystem::Proc(_) => final(buf)@ == old(buf)@ && result == (if file_bits(inode_num.num) == 1 {
                    Ok::<u64, VfsError>(0)
                } else {
                    Err::<u64, VfsError>(VfsError::NoSuchFile)
                }),
                FileSystem::Initramfs(fs) => {
                    &&& final(buf)@.len() == old(buf)@.len()
                    &&& inode_num.num >= fs@.len() ==> result == Err::<u64, VfsError>(VfsError::NoSuchFile)
                        && final(buf)@ == old(buf)@
                    &&& inode_num.num < fs@.len() ==> ({
                        let data = fs@[inode_num.num as int].1;
                        if data.len() > offset {
                            let length = if data.len() - offset <= old(buf)@.len() {
                                data.len() - offset
                            } else {
                                old(buf)@.len() as int
                            };
                            &&& result == Ok::<u64, VfsError>(length as u64)
                            &&& final(buf)@ == data.subrange(offset as int, offset + length) + old(buf)@.skip(length)
                        } else {
                            &&& result == Err::<u64, VfsError>(VfsError::OutOfBounds)
                            &&& final(buf)@ == old(buf)@
                        }
                    })
                },
            },
    {
        match self {
            FileSystem::Root(fs) => fs.read(inode_num, offset, buf),
            FileSystem::Proc(fs) => fs.read(inode_num, offset, buf),
            FileSystem::Dev(fs) => fs.read(inode_num, offset, buf),
            FileSystem::Initramfs(fs) => fs.read(inode_num, offset, buf),
        }
    }

    /// Write to an inode; none of the file systems supports writing yet.
    pub fn write(&self, inode_num: INodeNumber, offset: u64, buf: &[u8]) -> (result: Result<u64, VfsError>)
        ensures
            result == Err::<u64, VfsError>(VfsError::Unsupported),
    {
        match self {
            FileSystem::Root(fs) => fs.write(inode_num, offset, buf),
            FileSystem::Proc(fs) => fs.write(inode_num, offset, buf),
            FileSystem::Dev(fs) => fs.write(inode_num, offset, buf),
            FileSystem::Initramfs(fs) => fs.write(inode_num, offset, buf),
        }
    }

    /// Return the root inode number, inode number zero for every file system
    pub fn root(&self) -> (root: INodeNumber)
        ensures
            root == (INodeNumber { num: 0, generation: None }),
    {
        INodeNumber::new(0, false)
    }
}

/// A directory that was created can be looked up: looking its name up gives the inode number
/// it was created with, and every other name looks up as before.
pub proof fn lemma_create_dir_then_lookup(
    old_fs: FileSystem,
    new_fs: FileSystem,
    name: Seq<char>,
    other: Seq<char>,
    parent: INodeNumber,
)
    requires
        create_dir_post(old_fs, new_fs, name, Ok(())),
        other != name,
    ensures
        new_fs is Root,
        new_fs.lookup_spec(parent, name) == Ok::<INodeNumber, VfsError>(INodeNumber {
            num: new_fs->Root_0.last_number(),
            generation: None,
        }),
        new_fs.lookup_spec(parent, other) == old_fs.lookup_spec(parent, other),
{
}

} // verus!
