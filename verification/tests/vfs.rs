use kernel::fs::devfs::DevFs;
use kernel::fs::prepare_fs;
use kernel::fs::procfs::{ProcFile, ProcFs};
use kernel::fs::rootfs::RootFs;
use kernel::vfs::cache::LruCache;
use kernel::vfs::error::VfsError;
use kernel::vfs::fd::{FileDescriptor, FileDescriptorId};
use kernel::vfs::inode::{FileSystem, INode, INodeNumber};
use kernel::vfs::path::OwnedPath;
use kernel::vfs::{init, VirtualFileSystem};

fn number(num: u128) -> INodeNumber {
    INodeNumber::new(num, false)
}

#[test]
fn inode_numbers_and_generations() {
    let plain = INodeNumber::new(5, false);
    assert_eq!(plain.generation, None);
    assert_eq!(plain.reuse(), plain);
    let counted = INodeNumber::new(5, true);
    assert_eq!(counted.generation, Some(1));
    let reused = counted.reuse().reuse();
    assert_eq!(reused.num, 5);
    assert_eq!(reused.generation, Some(3));
    assert_eq!(reused.value(), 5);
}

#[test]
fn descriptors() {
    let fd = FileDescriptor::new(3, 10);
    assert_eq!(fd.inode_id, 3);
    assert_eq!(fd.offset, 10);
    assert_eq!(FileDescriptorId::new(4).value(), 4);
}

#[test]
fn rootfs_create_then_lookup() {
    let mut fs = RootFs::new();
    assert_eq!(fs.lookup(number(0), "proc"), Err(VfsError::NoSuchFile));
    assert_eq!(fs.create_dir(number(0), "proc"), Ok(()));
    assert_eq!(fs.create_dir(number(0), "dev"), Ok(()));
    assert_eq!(fs.lookup(number(0), "proc"), Ok(number(1)));
    assert_eq!(fs.lookup(number(0), "dev"), Ok(number(2)));
    assert_eq!(fs.create_dir(number(0), "proc"), Ok(()));
    assert_eq!(fs.lookup(number(0), "proc"), Ok(number(3)));
    assert_eq!(fs.lookup(number(0), "dev"), Ok(number(2)));
    let mut buf = [0u8; 4];
    assert_eq!(fs.read(number(1), 0, &mut buf), Err(VfsError::Unsupported));
    assert_eq!(fs.write(number(1), 0, &buf), Err(VfsError::Unsupported));
}

#[test]
fn procfs_paths() {
    let fs = ProcFs;
    let pid = fs.lookup(number(0), "42").unwrap();
    assert_eq!(pid.num, (42u128 << 32) | 1);
    let cwd = fs.lookup(pid, "cwd").unwrap();
    assert_eq!(cwd.num, (42u128 << 32) | 1 | 2);
    assert_eq!(fs.lookup(number(0), "0"), Err(VfsError::NoSuchFile));
    assert_eq!(fs.lookup(number(0), "self"), Err(VfsError::NoSuchFile));
    assert_eq!(fs.lookup(pid, "exe"), Err(VfsError::NoSuchFile));
    assert_eq!(fs.lookup(cwd, "x"), Err(VfsError::NoSuchFile));
    let mut buf = [0u8; 8];
    assert_eq!(fs.read(cwd, 0, &mut buf), Ok(0));
    assert_eq!(fs.read(pid, 0, &mut buf), Err(VfsError::NoSuchFile));
    assert_eq!(fs.create_dir(number(0), "x"), Err(VfsError::Unsupported));
    assert_eq!(ProcFile::new("cwd"), Ok(ProcFile::Cwd));
    assert_eq!(ProcFile::new("root"), Err(VfsError::NoSuchFile));
    assert_eq!(ProcFile::try_from(1), Ok(ProcFile::Cwd));
    assert_eq!(ProcFile::try_from(2), Err(VfsError::NoSuchFile));
}

#[test]
fn devfs_is_unsupported() {
    let fs = DevFs;
    let mut buf = [0u8; 1];
    assert_eq!(fs.lookup(number(0), "sda"), Err(VfsError::Unsupported));
    assert_eq!(fs.create_dir(number(0), "x"), Err(VfsError::Unsupported));
    assert_eq!(fs.read(number(0), 0, &mut buf), Err(VfsError::Unsupported));
    assert_eq!(fs.write(number(0), 0, &buf), Err(VfsError::Unsupported));
}

#[test]
fn prepare_file_systems_by_name() {
    assert!(matches!(prepare_fs("proc", &[]), Ok(FileSystem::Proc(_))));
    assert!(matches!(prepare_fs("dev", &[]), Ok(FileSystem::Dev(_))));
    assert!(matches!(prepare_fs("initramfs", &[]), Ok(FileSystem::Initramfs(_))));
    assert!(matches!(prepare_fs("ext4", &[]), Err(VfsError::Unsupported)));
}

#[test]
fn paths() {
    let path = OwnedPath::new("/proc/1");
    assert!(path.is_absolute());
    assert_eq!(path.components(), vec!["", "proc", "1"]);
    assert!(!OwnedPath::new("proc").is_absolute());
    assert!(!OwnedPath::new("").is_absolute());
}

#[test]
fn cache_of_inodes_and_entries() {
    let root = INode::new(number(0), 0);
    let mut cache = LruCache::new(root, 100);
    assert_eq!(cache.len(), 1);
    assert_eq!(cache.get_inode(0), Some(&root));
    assert_eq!(cache.get_inode(1), None);
    let child = INode::new(number(7), 0);
    let id = cache.insert_inode(child);
    assert_eq!(id, 1);
    assert_eq!(cache.get_inode(1), Some(&child));
    assert_eq!(cache.get_dentry(0, "child"), None);
    cache.insert_dentry(0, "child".to_string(), id);
    assert_eq!(cache.get_dentry(0, "child"), Some(1));
    assert_eq!(cache.get_dentry(1, "child"), None);
    cache.insert_dentry(0, "child".to_string(), 0);
    assert_eq!(cache.get_dentry(0, "child"), Some(0));
}

fn root_vfs() -> VirtualFileSystem {
    VirtualFileSystem::new(FileSystem::Root(RootFs::new()))
}

#[test]
fn resolve_created_directory() {
    let mut vfs = root_vfs();
    let root = vfs.root();
    assert_eq!(root, 0);
    assert_eq!(vfs.resolve(OwnedPath::new("/")), Ok(0));
    assert_eq!(vfs.resolve(OwnedPath::new("/home")), Err(VfsError::NoSuchFile));
    assert_eq!(vfs.create_dir(root, "home"), Ok(()));
    let home = vfs.resolve(OwnedPath::new("/home")).unwrap();
    assert_eq!(home, 1);
    assert_eq!(vfs.resolve(OwnedPath::new("//home/")), Ok(home));
    assert_eq!(vfs.create_dir(99, "x"), Err(VfsError::NoSuchFile));
}

#[test]
fn resolve_twice_gives_same_id() {
    let mut vfs = root_vfs();
    vfs.create_dir(0, "a").unwrap();
    vfs.create_dir(0, "b").unwrap();
    let first = vfs.resolve(OwnedPath::new("/b")).unwrap();
    let second = vfs.resolve(OwnedPath::new("/b")).unwrap();
    assert_eq!(first, second);
    let a = vfs.resolve(OwnedPath::new("/a")).unwrap();
    assert_ne!(a, first);
}

#[test]
fn init_mounts_procfs() {
    let mut vfs = root_vfs();
    assert_eq!(init(&mut vfs), Ok(()));
    let cwd = vfs.resolve(OwnedPath::new("/proc/1/cwd"));
    assert!(cwd.is_ok());
    assert_eq!(vfs.resolve(OwnedPath::new("/proc/1/cwd")), cwd);
    assert_eq!(vfs.resolve(OwnedPath::new("/proc/0")), Err(VfsError::NoSuchFile));
    assert_eq!(vfs.resolve(OwnedPath::new("/proc/1/exe")), Err(VfsError::NoSuchFile));
}

#[test]
fn init_needs_a_root_file_system() {
    let mut vfs = VirtualFileSystem::new(FileSystem::Proc(ProcFs));
    assert_eq!(init(&mut vfs), Err(VfsError::Unsupported));
}

#[test]
fn mount_redirects_resolution() {
    let mut vfs = root_vfs();
    vfs.create_dir(0, "mnt").unwrap();
    let mount_point = vfs.resolve(OwnedPath::new("/mnt")).unwrap();
    let index = vfs.add_filesystem(FileSystem::Proc(ProcFs));
    assert_eq!(index, 1);
    vfs.mount(mount_point, 0);
    vfs.create_dir(0, "inner").unwrap();
    let inner = vfs.resolve(OwnedPath::new("/mnt/inner")).unwrap();
    assert_eq!(vfs.resolve(OwnedPath::new("/inner")), Ok(inner));
}

#[test]
fn open_hands_out_lowest_descriptors() {
    let mut vfs = root_vfs();
    vfs.create_dir(0, "etc").unwrap();
    assert_eq!(vfs.open(OwnedPath::new("/etc")), Ok(FileDescriptorId::new(0)));
    assert_eq!(vfs.open(OwnedPath::new("/etc")), Ok(FileDescriptorId::new(1)));
    assert_eq!(vfs.open(OwnedPath::new("/")), Ok(FileDescriptorId::new(2)));
    assert_eq!(vfs.open(OwnedPath::new("/missing")), Err(VfsError::NoSuchFile));
    assert_eq!(vfs.open(OwnedPath::new("/")), Ok(FileDescriptorId::new(3)));
}

#[test]
fn open_runs_out_of_descriptors() {
    let mut vfs = root_vfs();
    for expected in 0..16384 {
        assert_eq!(vfs.open(OwnedPath::new("/")), Ok(FileDescriptorId::new(expected)));
    }
    assert_eq!(vfs.open(OwnedPath::new("/")), Err(VfsError::OutOfId));
}

#[test]
fn error_messages() {
    assert_eq!(VfsError::OutOfBounds.message(), "out of bounds");
    assert_eq!(VfsError::NoSuchFile.message(), "no such file");
    assert_eq!(VfsError::OutOfId.message(), "out of id");
    assert_eq!(VfsError::Unsupported.message(), "unsupported feature");
}
