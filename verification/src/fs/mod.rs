//! File system implementations
pub mod rootfs;
pub mod procfs;
pub mod devfs;
pub mod initramfs;
pub mod ramfs;

use vstd::prelude::*;
use crate::fs::devfs::DevFs;
use crate::fs::initramfs::InitramFs;
use crate::parse::cpio::archive_entries;
use crate::fs::procfs::ProcFs;
use crate::text::str_equals;
use crate::vfs::error::VfsError;
use crate::vfs::inode::FileSystem;

verus! {

/// Prepare a new file system by name: "proc" gives a procfs, "dev" a device file system and
/// "initramfs" the initramfs of the archive built into the kernel; other names are unsupported
pub fn prepare_fs(name: &str, initramfs: &'static [u8]) -> (fs: Result<FileSystem, VfsError>)
    ensures
        name@ == "proc"@ ==> fs == Ok::<FileSystem, VfsError>(FileSystem::Proc(ProcFs)),
        name@ == "dev"@ ==> fs == Ok::<FileSystem, VfsError>(FileSystem::Dev(DevFs)),
        name@ == "initramfs"@ ==> (fs matches Ok(FileSystem::Initramfs(f)) && {
            &&& f@.len() == archive_entries(initramfs@).len() + 1
            &&& f@[0] == (Seq::<char>::empty(), Seq::<u8>::empty())
            &&& forall|i: int| 0 <= i < archive_entries(initramfs@).len() ==> {
                &&& f.path_bytes(i + 1) == (#[trigger] archive_entries(initramfs@)[i]).0
                &&& f@[i + 1].1 == archive_entries(initramfs@)[i].1
            }
        }),
        name@ != "proc"@ && name@ != "dev"@ && name@ != "initramfs"@
            ==> fs == Err::<FileSystem, VfsError>(VfsError::Unsupported),
        fs matches Ok(f) ==> f.wf(),
{
    proof {
        reveal_strlit("proc");
        reveal_strlit("dev");
        reveal_strlit("initramfs");
        assert("proc"@.len() == 4 && "dev"@.len() == 3 && "initramfs"@.len() == 9);
    }
    if str_equals(name, "proc") {
        Ok(FileSystem::Proc(ProcFs))
    } else if str_equals(name, "dev") {
        Ok(FileSystem::Dev(DevFs))
    } else if str_equals(name, "initramfs") {
        Ok(FileSystem::Initramfs(InitramFs::new(initramfs)))
    } else {
        Err(VfsError::Unsupported)
    }
}

} // verus!
