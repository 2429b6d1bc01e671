//! The procfs provides an interface for managing processes through the virtual file system
use vstd::prelude::*;
use crate::text::{parse_u32, parse_u32_spec, str_equals};
use crate::vfs::error::VfsError;
use crate::vfs::inode::INodeNumber;

verus! {

/// The process bit, this corresponds to '/proc/{pid}'
pub const PROC: u128 = 1;

/// The file bits are bits 1-31, these bits encode a file, this means there can exist up to
/// 0x7fffffff files under each '/proc/{pid}/'
pub const FILE: u128 = 0xfffffffe;

/// Each file under '/proc/{pid}/' has its own file number. This is the number which is encoded in
/// the file bits
#[derive(Debug, Clone, Copy, PartialEq, Eq, Structural)]
pub enum ProcFile {
    Cwd,
}

impl ProcFile {
    /// The number of the file, as stored in the file bits
    pub open spec fn number_spec(self) -> u32 {
        match self {
            ProcFile::Cwd => 1,
        }
    }

    /// The number of the file, as stored in the file bits
    pub fn number(&self) -> (number: u32)
        ensures
            number == self.number_spec(),
    {
        match self {
            ProcFile::Cwd => 1,
        }
    }

    /// Create a new ProcFile from a filename
    pub fn new(name: &str) -> (file: Result<ProcFile, VfsError>)
        ensures
            file == (if name@ == "cwd"@ {
                Ok::<ProcFile, VfsError>(ProcFile::Cwd)
            } else {
                Err::<ProcFile, VfsError>(VfsError::NoSuchFile)
            }),
    {
        if str_equals(name, "cwd") {
            Ok(ProcFile::Cwd)
        } else {
            Err(VfsError::NoSuchFile)
        }
    }

    /// The file with the given file number
    pub fn try_from(file: u32) -> (result: Result<ProcFile, VfsError>)
        ensures
            result == (if file == 1 {
                Ok::<ProcFile, VfsError>(ProcFile::Cwd)
            } else {
                Err::<ProcFile, VfsError>(VfsError::NoSuchFile)
            }),
    {
        if file == 1 {
            Ok(ProcFile::Cwd)
        } else {
            Err(VfsError::NoSuchFile)
        }
    }
}

/// What looking `name` up under `parent` gives in the procfs: under the root a process id
/// greater than zero names '/proc/{pid}', under '/proc/{pid}' a file name names that file.
pub open spec fn proc_lookup_spec(parent: u128, name: Seq<char>) -> Result<INodeNumber, VfsError> {
    if parent & PROC == 0 {
        match parse_u32_spec(name) {
            Some(pid) => if pid > 0 {
                Ok(INodeNumber { num: ((pid as u128) << 32u128) | PROC, generation: None })
            } else {
                Err(VfsError::NoSuchFile)
            },
            None => Err(VfsError::NoSuchFile),
        }
    } else if parent & FILE == 0 {
        if name == "cwd"@ {
            Ok(INodeNumber { num: parent | ((ProcFile::Cwd.number_spec() as u128) << 1u128), generation: None })
        } else {
            Err(VfsError::NoSuchFile)
        }
    } else {
        Err(VfsError::NoSuchFile)
    }
}

/// The file number stored in the file bits of an inode number.
pub open spec fn file_bits(num: u128) -> u128 {
    (num & FILE) >> 1u128
}

/// A procfs implementation, it uses deterministic inode numbers meaning each inode number is the
/// encoding of a path
#[derive(Debug, Clone, Copy, Default)]
pub struct ProcFs;

impl ProcFs {
    /// Lookup an inode child from parent
    pub fn lookup(&self, parent: INodeNumber, name: &str) -> (inode_num: Result<INodeNumber, VfsError>)
        ensures
            inode_num == proc_lookup_spec(parent.num, name@),
    {
        if parent.value() & PROC == 0 {
            match parse_u32(name) {
                Some(pid) => {
                    if pid > 0 {
                        Ok(INodeNumber::new(((pid as u128) << 32u128) | PROC, false))
                    } else {
                        Err(VfsError::NoSuchFile)
                    }
                },
                None => Err(VfsError::NoSuchFile),
            }
        } else if parent.value() & FILE == 0 {
            match ProcFile::new(name) {
                Ok(proc_file) => Ok(INodeNumber::new(parent.value() | ((proc_file.number() as u128) << 1u128), false)),
                Err(err) => Err(err),
            }
        } else {
            Err(VfsError::NoSuchFile)
        }
    }

    /// Directories cannot be created in the procfs
    pub fn create_dir(&self, _parent: INodeNumber, _name: &str) -> (result: Result<(), VfsError>)
        ensures
            result == Err::<(), VfsError>(VfsError::Unsupported),
    {
        Err(VfsError::Unsupported)
    }

    /// Read from a procfs file. The only file, 'cwd', reads as empty.
    pub fn read(&self, inode_num: INodeNumber, _offset: u64, _buf: &mut [u8]) -> (result: Result<u64, VfsError>)
        ensures
            final(_buf)@ == old(_buf)@,
            result == (if file_bits(inode_num.num) == 1 {
                Ok::<u64, VfsError>(0)
            } else {
                Err::<u64, VfsError>(VfsError::NoSuchFile)
            }),
    {
        let num = inode_num.value();
        let bits = (num & FILE) >> 1u128;
        assert(((num & 0xfffffffeu128) >> 1u128) <= 0x7fff_ffffu128) by (bit_vector);
        match ProcFile::try_from(bits as u32) {
            Ok(ProcFile::Cwd) => Ok(0),
            Err(err) => Err(err),
        }
    }

    /// Writing is not supported by the procfs
    pub fn write(&self, _inode_num: INodeNumber, _offset: u64, _buf: &[u8]) -> (result: Result<u64, VfsError>)
        ensures
            result == Err::<u64, VfsError>(VfsError::Unsupported),
    {
        Err(VfsError::Unsupported)
    }
}

/// '/proc/{pid}/cwd' exists for every process id above zero: looking the process id up under
/// the procfs root and then 'cwd' under that gives an inode number that reads as the file
/// 'cwd', for that process.
pub proof fn lemma_pid_cwd(pid_name: Seq<char>, pid: u32)
    requires
        parse_u32_spec(pid_name) == Some(pid),
        pid > 0,
    ensures
        proc_lookup_spec(0, pid_name) matches Ok(dir) && {
            &&& dir.num >> 32u128 == pid as u128
            &&& proc_lookup_spec(dir.num, "cwd"@) matches Ok(file) && {
                &&& file_bits(file.num) == ProcFile::Cwd.number_spec() as u128
                &&& file.num >> 32u128 == pid as u128
            }
        },
{
    let p = pid as u128;
    assert(0u128 & PROC == 0) by (bit_vector);
    let dir = (p << 32u128) | PROC;
    assert(dir & 1u128 != 0 && dir & 0xfffffffeu128 == 0 && dir >> 32u128 == p) by (bit_vector)
        requires
            dir == (p << 32u128) | 1u128,
            p <= 0xffff_ffffu128,
    ;
    let file = dir | (1u128 << 1u128);
    assert((file & 0xfffffffeu128) >> 1u128 == 1u128 && file >> 32u128 == p) by (bit_vector)
        requires
            file == ((p << 32u128) | 1u128) | (1u128 << 1u128),
            p <= 0xffff_ffffu128,
    ;
}

} // verus!
