//! The virtual file system
pub mod error;
pub mod inode;
pub mod fd;
pub mod cache;
pub mod path;

use vstd::prelude::*;
use std::collections::BTreeMap;
use crate::bitmap::Bitmap;
use crate::text::{split_spec, nonempty_pieces, keep_nonempty, lemma_keep_nonempty_step};
use crate::vfs::cache::{CacheState, LruCache};
use crate::vfs::error::VfsError;
use crate::vfs::fd::{FileDescriptor, FileDescriptorId};
use crate::vfs::inode::{INode, INodeId, INodeNumber, FileSystem, create_dir_post, inode_lookup_spec};
use crate::vfs::path::{OwnedPath, is_absolute_path};
use crate::fs::procfs::ProcFs;

verus! {

broadcast use vstd::laws_cmp::group_laws_cmp, vstd::std_specs::btree::group_btree_axioms;

/// The directory that a walk enters at `current`: the root mounted there, if any.
pub open spec fn redirect(mounts: Map<INodeId, INodeId>, current: INodeId) -> INodeId {
    if mounts.contains_key(current) {
        mounts[current]
    } else {
        current
    }
}

/// One step of path resolution: enter the directory at `current` (following a mount), then
/// find `name` in it, from the directory entry cache where it is cached, otherwise by asking
/// the directory's file system and caching the inode it names under a new inode id.
pub open spec fn resolve_step(
    filesystems: Seq<FileSystem>,
    mounts: Map<INodeId, INodeId>,
    cache: CacheState,
    current: INodeId,
    name: Seq<char>,
) -> (Result<INodeId, VfsError>, CacheState) {
    let dir = redirect(mounts, current);
    if cache.dentries.contains_key((dir, name)) {
        (Ok(cache.dentries[(dir, name)]), cache)
    } else if dir >= cache.inodes.len() {
        (Err(VfsError::NoSuchFile), cache)
    } else {
        match inode_lookup_spec(filesystems, cache.inodes[dir as int], name) {
            Err(e) => (Err(e), cache),
            Ok(child) => if cache.inodes.len() >= usize::MAX {
                (Err(VfsError::OutOfId), cache)
            } else {
                let id = cache.inodes.len() as INodeId;
                (
                    Ok(id),
                    CacheState {
                        inodes: cache.inodes.push(child),
                        dentries: cache.dentries.insert((dir, name), id),
                        order: seq![id] + cache.order,
                    },
                )
            },
        }
    }
}

/// Resolving the names `names` one after the other from `start`: the inode id reached, or the
/// first error, and the cache afterwards.
pub open spec fn resolve_walk(
    filesystems: Seq<FileSystem>,
    mounts: Map<INodeId, INodeId>,
    cache: CacheState,
    start: INodeId,
    names: Seq<Seq<char>>,
) -> (Result<INodeId, VfsError>, CacheState)
    decreases names.len(),
{
    if names.len() == 0 {
        (Ok(start), cache)
    } else {
        let (result, after) = resolve_walk(filesystems, mounts, cache, start, names.drop_last());
        match result {
            Err(e) => (Err(e), after),
            Ok(current) => resolve_step(filesystems, mounts, after, current, names.last()),
        }
    }
}

/// Once a walk has failed, walking further names fails the same way.
pub proof fn lemma_walk_error_sticks(
    filesystems: Seq<FileSystem>,
    mounts: Map<INodeId, INodeId>,
    cache: CacheState,
    start: INodeId,
    pieces: Seq<Seq<char>>,
    k: int,
)
    requires
        0 <= k <= pieces.len(),
        resolve_walk(filesystems, mounts, cache, start, keep_nonempty(pieces.take(k))).0 is Err,
    ensures
        resolve_walk(filesystems, mounts, cache, start, keep_nonempty(pieces))
            == resolve_walk(filesystems, mounts, cache, start, keep_nonempty(pieces.take(k))),
    decreases pieces.len() - k,
{
    if k == pieces.len() {
        assert(pieces.take(k) =~= pieces);
    } else {
        lemma_keep_nonempty_step(pieces, k);
        let names = keep_nonempty(pieces.take(k));
        if pieces[k].len() > 0 {
            assert(names.push(pieces[k]).drop_last() =~= names);
        }
        lemma_walk_error_sticks(filesystems, mounts, cache, start, pieces, k + 1);
    }
}

/// The cache `after` holds at least as many inodes as `before`, and every directory entry of
/// `before` unchanged.
pub open spec fn cache_extends(before: CacheState, after: CacheState) -> bool {
    &&& before.inodes.len() <= after.inodes.len()
    &&& forall|key: (INodeId, Seq<char>)| #[trigger] before.dentries.contains_key(key) ==> {
        &&& after.dentries.contains_key(key)
        &&& after.dentries[key] == before.dentries[key]
    }
}

/// A step of resolution only ever adds to the cache.
proof fn lemma_step_extends(
    filesystems: Seq<FileSystem>,
    mounts: Map<INodeId, INodeId>,
    cache: CacheState,
    current: INodeId,
    name: Seq<char>,
)
    ensures
        cache_extends(cache, resolve_step(filesystems, mounts, cache, current, name).1),
{
}

/// Resolution only ever adds to the cache.
proof fn lemma_walk_extends(
    filesystems: Seq<FileSystem>,
    mounts: Map<INodeId, INodeId>,
    cache: CacheState,
    start: INodeId,
    names: Seq<Seq<char>>,
)
    ensures
        cache_extends(cache, resolve_walk(filesystems, mounts, cache, start, names).1),
    decreases names.len(),
{
    if names.len() > 0 {
        lemma_walk_extends(filesystems, mounts, cache, start, names.drop_last());
        let (result, after) = resolve_walk(filesystems, mounts, cache, start, names.drop_last());
        if let Ok(current) = result {
            lemma_step_extends(filesystems, mounts, after, current, names.last());
        }
    }
}

/// A step that succeeds without changing the cache found a cached directory entry.
proof fn lemma_unchanged_step_hits(
    filesystems: Seq<FileSystem>,
    mounts: Map<INodeId, INodeId>,
    cache: CacheState,
    current: INodeId,
    name: Seq<char>,
    found: INodeId,
)
    requires
        resolve_step(filesystems, mounts, cache, current, name) == (Ok::<INodeId, VfsError>(found), cache),
    ensures
        cache.dentries.contains_key((redirect(mounts, current), name)),
        cache.dentries[(redirect(mounts, current), name)] == found,
{
}

/// A walk that succeeds without changing the cache succeeds the same way, again without
/// changing it, on any cache that holds at least that cache's entries.
proof fn lemma_cached_walk_stable(
    filesystems: Seq<FileSystem>,
    mounts: Map<INodeId, INodeId>,
    cache: CacheState,
    larger: CacheState,
    start: INodeId,
    names: Seq<Seq<char>>,
    found: INodeId,
)
    requires
        resolve_walk(filesystems, mounts, cache, start, names) == (Ok::<INodeId, VfsError>(found), cache),
        cache_extends(cache, larger),
    ensures
        resolve_walk(filesystems, mounts, larger, start, names) == (Ok::<INodeId, VfsError>(found), larger),
    decreases names.len(),
{
    if names.len() > 0 {
        let prefix = names.drop_last();
        let (result, after) = resolve_walk(filesystems, mounts, cache, start, prefix);
        lemma_walk_extends(filesystems, mounts, cache, start, prefix);
        match result {
            Ok(current) => {
                lemma_step_extends(filesystems, mounts, after, current, names.last());
                lemma_unchanged_step_hits(filesystems, mounts, cache, current, names.last(), found);
                lemma_cached_walk_stable(filesystems, mounts, cache, larger, start, prefix, current);
            },
            Err(_) => {},
        }
    }
}

/// Resolving a path again right after it resolved gives the same inode id and leaves the
/// cache as it is: every name on the way is cached by then.
pub proof fn lemma_resolve_idempotent(
    filesystems: Seq<FileSystem>,
    mounts: Map<INodeId, INodeId>,
    cache: CacheState,
    start: INodeId,
    names: Seq<Seq<char>>,
    found: INodeId,
    after: CacheState,
)
    requires
        resolve_walk(filesystems, mounts, cache, start, names) == (Ok::<INodeId, VfsError>(found), after),
    ensures
        resolve_walk(filesystems, mounts, after, start, names) == (Ok::<INodeId, VfsError>(found), after),
    decreases names.len(),
{
    if names.len() > 0 {
        let prefix = names.drop_last();
        let (result, middle) = resolve_walk(filesystems, mounts, cache, start, prefix);
        match result {
            Ok(current) => {
                lemma_resolve_idempotent(filesystems, mounts, cache, start, prefix, current, middle);
                lemma_step_extends(filesystems, mounts, middle, current, names.last());
                lemma_cached_walk_stable(filesystems, mounts, middle, after, start, prefix, current);
            },
            Err(_) => {},
        }
    }
}

/// The number of file descriptors the virtual file system can hand out.
pub const MAX_DESCRIPTORS: usize = 16384;

/// The virtual file system
pub struct VirtualFileSystem {
    descriptors: BTreeMap<usize, FileDescriptor>,
    mounts: BTreeMap<INodeId, INodeId>,
    cache: LruCache,
    fd_alloc: Bitmap<128>,
    root: INodeId,
    filesystems: Vec<FileSystem>,
}

impl VirtualFileSystem {
    /// The open file descriptors, by number.
    pub closed spec fn descriptors(&self) -> Map<usize, FileDescriptor> {
        self.descriptors@
    }

    /// The mounted roots, by the inode id of their mount point.
    pub closed spec fn mounts(&self) -> Map<INodeId, INodeId> {
        self.mounts@
    }

    /// The inode and directory entry cache.
    pub closed spec fn cache_state(&self) -> CacheState {
        self.cache.state()
    }

    /// Which file descriptor numbers are taken.
    pub closed spec fn fd_bits(&self) -> Seq<bool> {
        self.fd_alloc@
    }

    /// The file systems, by index.
    pub closed spec fn filesystems(&self) -> Seq<FileSystem> {
        self.filesystems@
    }

    /// The inode id of the root directory.
    pub closed spec fn spec_root(&self) -> INodeId {
        self.root
    }

    /// Every cached inode belongs to a known file system, every file system keeps its own
    /// invariant, and a file descriptor is open exactly where its number is taken.
    pub closed spec fn wf(&self) -> bool {
        &&& self.cache.wf()
        &&& self.fd_alloc.wf()
        &&& self.root == 0
        &&& forall|i: int| 0 <= i < self.cache.state().inodes.len()
            ==> (#[trigger] self.cache.state().inodes[i]).fs < self.filesystems@.len()
        &&& forall|i: int| 0 <= i < self.filesystems@.len() ==> (#[trigger] self.filesystems@[i]).wf()
        &&& forall|k: usize| #[trigger] self.descriptors@.contains_key(k) <==> (k < MAX_DESCRIPTORS
            && self.fd_alloc@[k as int])
    }

    /// The root directory is always in the cache.
    pub proof fn lemma_root_cached(&self)
        requires
            self.wf(),
        ensures
            self.spec_root() == 0,
            self.cache_state().inodes.len() >= 1,
            self.cache_state().inodes[0].fs < self.filesystems().len(),
    {
        self.cache.lemma_root_cached();
    }

    /// Every cached inode belongs to one of the file systems.
    pub proof fn lemma_inodes_known(&self)
        requires
            self.wf(),
        ensures
            forall|i: int| 0 <= i < self.cache_state().inodes.len()
                ==> (#[trigger] self.cache_state().inodes[i]).fs < self.filesystems().len(),
    {
    }

    /// Create a new virtual file system with the file system of its root directory
    pub fn new(root: FileSystem) -> (vfs: VirtualFileSystem)
        requires
            root.wf(),
        ensures
            vfs.wf(),
            vfs.filesystems() == seq![root],
            vfs.cache_state().inodes == seq![INode { fs: 0, inode_num: INodeNumber { num: 0, generation: None } }],
            vfs.cache_state().dentries == Map::<(INodeId, Seq<char>), INodeId>::empty(),
            vfs.mounts() == Map::<INodeId, INodeId>::empty(),
            vfs.descriptors() == Map::<usize, FileDescriptor>::empty(),
            vfs.fd_bits() == Seq::new(MAX_DESCRIPTORS as nat, |i: int| false),
            vfs.spec_root() == 0,
    {
        let root_num = root.root();
        let mut filesystems: Vec<FileSystem> = Vec::new();
        filesystems.push(root);
        let vfs = VirtualFileSystem {
            descriptors: BTreeMap::new(),
            mounts: BTreeMap::new(),
            cache: LruCache::new(INode::new(root_num, 0), 100),
            fd_alloc: Bitmap::new(),
            root: 0,
            filesystems,
        };
        vfs
    }

    /// Return the root inode id
    pub fn root(&self) -> (root: INodeId)
        ensures
            root == self.spec_root(),
    {
        self.root
    }

    /// Add a file system and return its index, by which inodes refer to it
    pub fn add_filesystem(&mut self, fs: FileSystem) -> (index: usize)
        requires
            old(self).wf(),
            fs.wf(),
        ensures
            final(self).wf(),
            index == old(self).filesystems().len(),
            final(self).filesystems() == old(self).filesystems().push(fs),
            final(self).cache_state() == old(self).cache_state(),
            final(self).mounts() == old(self).mounts(),
            final(self).descriptors() == old(self).descriptors(),
            final(self).fd_bits() == old(self).fd_bits(),
            final(self).spec_root() == old(self).spec_root(),
    {
        let index = self.filesystems.len();
        self.filesystems.push(fs);
        index
    }

    /// Mount a root inode at a mount point
    pub fn mount(&mut self, mount_point: INodeId, root: INodeId)
        requires
            old(self).wf(),
        ensures
            final(self).wf(),
            final(self).mounts() == old(self).mounts().insert(mount_point, root),
            final(self).filesystems() == old(self).filesystems(),
            final(self).cache_state() == old(self).cache_state(),
            final(self).descriptors() == old(self).descriptors(),
            final(self).fd_bits() == old(self).fd_bits(),
            final(self).spec_root() == old(self).spec_root(),
    {
        self.mounts.insert(mount_point, root);
    }

    /// Resolve an absolute path and return the corresponding inode id: the names between the
    /// '/' separators are resolved one after the other from the root, and the cache keeps what
    /// was looked up on the way
    pub fn resolve(&mut self, path: OwnedPath) -> (result: Result<INodeId, VfsError>)
        requires
            old(self).wf(),
            is_absolute_path(path@),
        ensures
            final(self).wf(),
            (result, final(self).cache_state()) == resolve_walk(
                old(self).filesystems(),
                old(self).mounts(),
                old(self).cache_state(),
                old(self).spec_root(),
                nonempty_pieces(path@, '/'),
            ),
            final(self).filesystems() == old(self).filesystems(),
            final(self).mounts() == old(self).mounts(),
            final(self).descriptors() == old(self).descriptors(),
            final(self).fd_bits() == old(self).fd_bits(),
            final(self).spec_root() == old(self).spec_root(),
    {
        let components = path.components();
        let ghost pieces = split_spec(path@, '/');
        let ghost fss = self.filesystems@;
        let ghost mounts = self.mounts@;
        let ghost start = self.cache.state();
        let mut current = self.root;
        let mut i: usize = 0;
        while i < components.len()
            invariant
                self.wf(),
                components@.map_values(|c: String| c@) == pieces,
                pieces == split_spec(path@, '/'),
                i <= components@.len(),
                fss == self.filesystems@,
                mounts == self.mounts@,
                self.descriptors@ == old(self).descriptors@,
                self.fd_alloc@ == old(self).fd_alloc@,
                self.root == old(self).root,
                start == old(self).cache.state(),
                fss == old(self).filesystems(),
                mounts == old(self).mounts(),
                (Ok::<INodeId, VfsError>(current), self.cache.state()) == resolve_walk(
                    fss,
                    mounts,
                    start,
                    old(self).spec_root(),
                    keep_nonempty(pieces.take(i as int)),
                ),
            decreases components@.len() - i,
        {
            let name = &components[i];
            let ghost names = keep_nonempty(pieces.take(i as int));
            let ghost next_names = keep_nonempty(pieces.take(i + 1));
            proof {
                lemma_keep_nonempty_step(pieces, i as int);
            }
            if !name.as_str().is_empty() {
                proof {
                    assert(next_names.drop_last() =~= names);
                }
                let dir = match self.mounts.get(&current) {
                    Some(root) => *root,
                    None => current,
                };
                match self.cache.get_dentry(dir, name.as_str()) {
                    Some(cached) => {
                        current = cached;
                    },
                    None => {
                        let inode = match self.cache.get_inode(dir) {
                            Some(inode) => *inode,
                            None => {
                                proof {
                                    lemma_walk_error_sticks(fss, mounts, start, old(self).spec_root(), pieces, i + 1);
                                }
                                return Err(VfsError::NoSuchFile);
                            },
                        };
                        let child = match inode.lookup(&self.filesystems, name.as_str()) {
                            Ok(child) => child,
                            Err(err) => {
                                proof {
                                    lemma_walk_error_sticks(fss, mounts, start, old(self).spec_root(), pieces, i + 1);
                                }
                                return Err(err);
                            },
                        };
                        if self.cache.len() == usize::MAX {
                            proof {
                                lemma_walk_error_sticks(fss, mounts, start, old(self).spec_root(), pieces, i + 1);
                            }
                            return Err(VfsError::OutOfId);
                        }
                        let inode_id = self.cache.insert_inode(child);
                        self.cache.insert_dentry(dir, name.clone(), inode_id);
                        current = inode_id;
                    },
                }
            } else {
            }
            i = i + 1;
        }
        proof {
            assert(pieces.take(components@.len() as int) =~= pieces);
        }
        Ok(current)
    }

    /// Open a file descriptor for an absolute path and return its id: the lowest free
    /// descriptor number is taken, and the descriptor starts at offset zero
    pub fn open(&mut self, path: OwnedPath) -> (result: Result<FileDescriptorId, VfsError>)
        requires
            old(self).wf(),
            is_absolute_path(path@),
        ensures
            final(self).wf(),
            final(self).filesystems() == old(self).filesystems(),
            final(self).mounts() == old(self).mounts(),
            final(self).spec_root() == old(self).spec_root(),
            ({
                let (walked, cache) = resolve_walk(
                    old(self).filesystems(),
                    old(self).mounts(),
                    old(self).cache_state(),
                    old(self).spec_root(),
                    nonempty_pieces(path@, '/'),
                );
                &&& final(self).cache_state() == cache
                &&& match walked {
                    Err(e) => {
                        &&& result == Err::<FileDescriptorId, VfsError>(e)
                        &&& final(self).descriptors() == old(self).descriptors()
                        &&& final(self).fd_bits() == old(self).fd_bits()
                    },
                    Ok(inode_id) => match result {
                        Ok(fd) => {
                            &&& fd.0 < MAX_DESCRIPTORS
                            &&& !old(self).descriptors().contains_key(fd.0)
                            &&& !old(self).fd_bits()[fd.0 as int]
                            &&& forall|j: int| 0 <= j < fd.0 ==> old(self).fd_bits()[j]
                            &&& final(self).fd_bits() == old(self).fd_bits().update(fd.0 as int, true)
                            &&& final(self).descriptors() == old(self).descriptors().insert(
                                fd.0,
                                FileDescriptor { inode_id, offset: 0 },
                            )
                        },
                        Err(e) => {
                            &&& e == VfsError::OutOfId
                            &&& forall|j: int| 0 <= j < MAX_DESCRIPTORS ==> old(self).fd_bits()[j]
                            &&& final(self).descriptors() == old(self).descriptors()
                            &&& final(self).fd_bits() == old(self).fd_bits()
                        },
                    },
                }
            }),
    {
        let inode_id = match self.resolve(path) {
            Ok(inode_id) => inode_id,
            Err(err) => return Err(err),
        };
        proof {
            self.fd_alloc.lemma_len();
        }
        let fd = match self.fd_alloc.allocate() {
            Some(fd) => fd,
            None => return Err(VfsError::OutOfId),
        };
        let fd_id = FileDescriptorId::new(fd);
        self.descriptors.insert(fd, FileDescriptor::new(inode_id, 0));
        proof {
            assert forall|k: usize| #[trigger] self.descriptors@.contains_key(k) <==> (k < MAX_DESCRIPTORS
                && self.fd_alloc@[k as int]) by {}
        }
        Ok(fd_id)
    }

    /// Create a subdirectory named `name` under the directory with inode id `parent`, in the
    /// file system that directory belongs to
    pub fn create_dir(&mut self, parent: INodeId, name: &str) -> (result: Result<(), VfsError>)
        requires
            old(self).wf(),
        ensures
            final(self).wf(),
            final(self).cache_state() == old(self).cache_state(),
            final(self).mounts() == old(self).mounts(),
            final(self).descriptors() == old(self).descriptors(),
            final(self).fd_bits() == old(self).fd_bits(),
            final(self).spec_root() == old(self).spec_root(),
            parent >= old(self).cache_state().inodes.len() ==> {
                &&& result == Err::<(), VfsError>(VfsError::NoSuchFile)
                &&& final(self).filesystems() == old(self).filesystems()
            },
            parent < old(self).cache_state().inodes.len() ==> {
                let fs = old(self).cache_state().inodes[parent as int].fs as int;
                &&& final(self).filesystems() == old(self).filesystems().update(fs, final(self).filesystems()[fs])
                &&& create_dir_post(old(self).filesystems()[fs], final(self).filesystems()[fs], name@, result)
            },
    {
        let inode = match self.cache.get_inode(parent) {
            Some(inode) => *inode,
            None => return Err(VfsError::NoSuchFile),
        };
        let result = inode.create_dir(&mut self.filesystems, name);
        result
    }
}

/// The path "/proc" names the single directory "proc".
proof fn lemma_proc_path()
    ensures
        nonempty_pieces("/proc"@, '/') == seq!["proc"@],
{
    reveal_strlit("/proc");
    reveal_strlit("proc");
    let s = "/proc"@;
    let pieces = seq![Seq::<char>::empty(), "proc"@];
    let s1 = seq!['/'];
    let s2 = seq!['/', 'p'];
    let s3 = seq!['/', 'p', 'r'];
    let s4 = seq!['/', 'p', 'r', 'o'];
    assert(split_spec(Seq::<char>::empty(), '/') =~= seq![Seq::<char>::empty()]);
    assert(s1.drop_last() =~= Seq::<char>::empty() && s1.last() == '/');
    assert(split_spec(s1, '/') =~= seq![Seq::<char>::empty(), Seq::<char>::empty()]);
    assert(s2.drop_last() =~= s1 && s2.last() == 'p');
    assert(split_spec(s2, '/') =~= seq![Seq::<char>::empty(), seq!['p']]);
    assert(s3.drop_last() =~= s2 && s3.last() == 'r');
    assert(seq!['p'].push('r') =~= seq!['p', 'r']);
    assert(split_spec(s3, '/') =~= seq![Seq::<char>::empty(), seq!['p', 'r']]);
    assert(s4.drop_last() =~= s3 && s4.last() == 'o');
    assert(seq!['p', 'r'].push('o') =~= seq!['p', 'r', 'o']);
    assert(split_spec(s4, '/') =~= seq![Seq::<char>::empty(), seq!['p', 'r', 'o']]);
    assert(s.drop_last() =~= s4 && s.last() == 'c');
    assert(seq!['p', 'r', 'o'].push('c') =~= "proc"@);
    assert(split_spec(s, '/') =~= pieces);
    reveal(Seq::filter);
    assert(pieces.drop_last() =~= seq![Seq::<char>::empty()]);
    assert(seq![Seq::<char>::empty()].drop_last() =~= Seq::<Seq<char>>::empty());
    assert(keep_nonempty(Seq::<Seq<char>>::empty()) =~= Seq::<Seq<char>>::empty());
    assert(keep_nonempty(seq![Seq::<char>::empty()]) =~= Seq::<Seq<char>>::empty());
    assert("proc"@.len() == 4);
    assert(keep_nonempty(pieces) =~= seq!["proc"@]);
}

/// Once "proc" is in the root file system, "/proc" resolves from the root, unless something is
/// mounted at the root or the cache has no room.
proof fn lemma_proc_resolves(
    filesystems: Seq<FileSystem>,
    mounts: Map<INodeId, INodeId>,
    cache: CacheState,
    fs: int,
)
    requires
        cache.inodes.len() >= 1,
        cache.inodes.len() + 2 <= usize::MAX,
        fs == cache.inodes[0].fs,
        0 <= fs < filesystems.len(),
        !mounts.contains_key(0),
        filesystems[fs] matches FileSystem::Root(root_fs) && root_fs@.contains_key("proc"@),
    ensures
        resolve_walk(filesystems, mounts, cache, 0, seq!["proc"@]).0 is Ok,
        resolve_walk(filesystems, mounts, cache, 0, seq!["proc"@]).1.inodes.len() <= cache.inodes.len() + 1,
{
    let names = seq!["proc"@];
    assert(names.drop_last() =~= Seq::<Seq<char>>::empty());
    assert(resolve_walk(filesystems, mounts, cache, 0, names.drop_last()) == (Ok::<INodeId, VfsError>(0), cache));
    assert(inode_lookup_spec(filesystems, cache.inodes[0], "proc"@) is Ok);
}

/// Initialize the virtual file system: create the directory 'proc' in the root directory and
/// mount a procfs there
pub fn init(vfs: &mut VirtualFileSystem) -> (result: Result<(), VfsError>)
    requires
        old(vfs).wf(),
    ensures
        final(vfs).wf(),
        final(vfs).descriptors() == old(vfs).descriptors(),
        final(vfs).fd_bits() == old(vfs).fd_bits(),
        final(vfs).spec_root() == old(vfs).spec_root(),
        match old(vfs).filesystems()[old(vfs).cache_state().inodes[0].fs as int] {
            FileSystem::Root(root) => {
                &&& root.last_number() == u128::MAX ==> result == Err::<(), VfsError>(VfsError::OutOfId)
                &&& root.last_number() < u128::MAX && !old(vfs).mounts().contains_key(0)
                    && old(vfs).cache_state().inodes.len() + 2 <= usize::MAX ==> result is Ok
            },
            _ => result == Err::<(), VfsError>(VfsError::Unsupported),
        },
        result is Ok ==> {
            // the file systems once "proc" was created in the root file system
            let fs = old(vfs).cache_state().inodes[0].fs as int;
            let created = final(vfs).filesystems().drop_last();
            // resolving "/proc" then
            let (walked, resolved) = resolve_walk(
                created,
                old(vfs).mounts(),
                old(vfs).cache_state(),
                0,
                seq!["proc"@],
            );
            &&& final(vfs).filesystems().len() == old(vfs).filesystems().len() + 1
            &&& final(vfs).filesystems().last() == FileSystem::Proc(ProcFs)
            &&& created == old(vfs).filesystems().update(fs, created[fs])
            &&& create_dir_post(old(vfs).filesystems()[fs], created[fs], "proc"@, Ok(()))
            &&& walked is Ok
            &&& final(vfs).cache_state().inodes == resolved.inodes.push(
                INode { fs: old(vfs).filesystems().len() as usize, inode_num: INodeNumber { num: 0, generation: None } },
            )
            &&& final(vfs).cache_state().dentries == resolved.dentries
            &&& final(vfs).mounts() == old(vfs).mounts().insert(walked->Ok_0, resolved.inodes.len() as INodeId)
        },
{
    let root = vfs.root();
    proof {
        old(vfs).lemma_root_cached();
    }
    match vfs.create_dir(root, "proc") {
        Ok(()) => {},
        Err(err) => return Err(err),
    }
    let ghost created = vfs.filesystems();
    let ghost walk = resolve_walk(created, old(vfs).mounts(), old(vfs).cache_state(), 0, seq!["proc"@]);
    proof {
        reveal_strlit("/proc");
        lemma_proc_path();
        let fs = old(vfs).cache_state().inodes[0].fs as int;
        if let FileSystem::Root(root_fs) = old(vfs).filesystems()[fs] {
            if root_fs.last_number() < u128::MAX && !old(vfs).mounts().contains_key(0)
                && old(vfs).cache_state().inodes.len() + 2 <= usize::MAX {
                lemma_proc_resolves(created, old(vfs).mounts(), old(vfs).cache_state(), fs);
            }
        }
    }
    let resolved = vfs.resolve(OwnedPath::new("/proc"));
    assert(resolved == walk.0 && vfs.cache_state() == walk.1);
    let mount_point = match resolved {
        Ok(mount_point) => mount_point,
        Err(err) => return Err(err),
    };
    let procfs = FileSystem::Proc(ProcFs);
    let procfs_root = procfs.root();
    let fs = vfs.add_filesystem(procfs);
    assert(vfs.filesystems().drop_last() =~= created);
    if vfs.cache.len() == usize::MAX {
        return Err(VfsError::OutOfId);
    }
    let inode_id = vfs.cache.insert_inode(INode::new(procfs_root, fs));
    vfs.mount(mount_point, inode_id);
    Ok(())
}

} // verus!
