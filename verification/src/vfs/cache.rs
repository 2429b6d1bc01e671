//! The cache of inodes and directory entries of the virtual file system
use vstd::prelude::*;
use std::collections::VecDeque;
use crate::vfs::inode::{INode, INodeId};

verus! {

/// A cached directory entry: the inode id of `name` under `parent`
pub struct Dentry {
    parent: INodeId,
    name: String,
    inode: INodeId,
}

/// What the cache holds, as mathematical values.
pub struct CacheState {
    /// The cached inodes; the inode id of an inode is its position, the root being zero.
    pub inodes: Seq<INode>,
    /// The directory entries, by parent inode id and name.
    pub dentries: Map<(INodeId, Seq<char>), INodeId>,
    /// The inode ids, most recently inserted first.
    pub order: Seq<INodeId>,
}

/// A LRU cache for inodes and dentry
pub struct LruCache {
    inodes: Vec<INode>,
    dentry: Vec<Dentry>,
    order: VecDeque<INodeId>,
    capacity: usize,
}

impl LruCache {
    /// The position of the dentry for `key`.
    closed spec fn dentry_index(&self, key: (INodeId, Seq<char>)) -> int {
        choose|i: int| 0 <= i < self.dentry@.len() && self.dentry@[i].parent == key.0
            && self.dentry@[i].name@ == key.1
    }

    /// The directory entries, by parent inode id and name.
    pub closed spec fn dentries(&self) -> Map<(INodeId, Seq<char>), INodeId> {
        Map::new(
            |key: (INodeId, Seq<char>)| exists|i: int| 0 <= i < self.dentry@.len()
                && self.dentry@[i].parent == key.0 && self.dentry@[i].name@ == key.1,
            |key: (INodeId, Seq<char>)| self.dentry@[self.dentry_index(key)].inode,
        )
    }

    /// What the cache holds.
    pub closed spec fn state(&self) -> CacheState {
        CacheState { inodes: self.inodes@, dentries: self.dentries(), order: self.order@ }
    }

    /// The capacity the cache was made with.
    pub closed spec fn spec_capacity(&self) -> usize {
        self.capacity
    }

    /// The cache holds at least the root inode, and at most one entry per parent and name.
    pub closed spec fn wf(&self) -> bool {
        &&& self.inodes@.len() >= 1
        &&& forall|i: int, j: int|
            0 <= i < self.dentry@.len() && 0 <= j < self.dentry@.len() && i != j
                ==> self.dentry@[i].parent != self.dentry@[j].parent
                    || self.dentry@[i].name@ != self.dentry@[j].name@
    }

    /// The root inode is always cached.
    pub proof fn lemma_root_cached(&self)
        requires
            self.wf(),
        ensures
            self.state().inodes.len() >= 1,
    {
    }

    /// Create a new LRU cache for inodes and dentry, holding the root inode under id zero
    pub fn new(root: INode, capacity: usize) -> (cache: LruCache)
        ensures
            cache.wf(),
            cache.state().inodes == seq![root],
            cache.state().dentries == Map::<(INodeId, Seq<char>), INodeId>::empty(),
            cache.state().order == Seq::<INodeId>::empty(),
            cache.spec_capacity() == capacity,
    {
        let mut inodes: Vec<INode> = Vec::new();
        inodes.push(root);
        let cache = LruCache { inodes, dentry: Vec::new(), order: VecDeque::new(), capacity };
        cache
    }

    /// The number of cached inodes
    pub fn len(&self) -> (len: usize)
        ensures
            len == self.state().inodes.len(),
    {
        self.inodes.len()
    }

    /// Insert an inode into the LRU cache and return the inode id
    pub fn insert_inode(&mut self, inode: INode) -> (inode_id: INodeId)
        requires
            old(self).wf(),
            old(self).state().inodes.len() < usize::MAX,
        ensures
            final(self).wf(),
            inode_id == old(self).state().inodes.len(),
            final(self).state().inodes == old(self).state().inodes.push(inode),
            final(self).state().dentries == old(self).state().dentries,
            final(self).state().order == seq![inode_id] + old(self).state().order,
            final(self).spec_capacity() == old(self).spec_capacity(),
    {
        let inode_id = self.inodes.len();
        self.inodes.push(inode);
        self.order.push_front(inode_id);
        inode_id
    }

    /// Return an inode if inode id exists
    pub fn get_inode(&self, inode_id: INodeId) -> (inode: Option<&INode>)
        ensures
            match inode {
                Some(i) => inode_id < self.state().inodes.len() && *i == self.state().inodes[inode_id as int],
                None => inode_id >= self.state().inodes.len(),
            },
    {
        if inode_id < self.inodes.len() {
            Some(&self.inodes[inode_id])
        } else {
            None
        }
    }

    /// The position of the dentry of `name` under `parent`, if there is one.
    fn find_dentry(&self, parent: INodeId, name: &String) -> (index: Option<usize>)
        requires
            self.wf(),
        ensures
            match index {
                Some(i) => i < self.dentry@.len() && self.dentry@[i as int].parent == parent
                    && self.dentry@[i as int].name@ == name@,
                None => !self.dentries().contains_key((parent, name@)),
            },
    {
        let mut i: usize = 0;
        while i < self.dentry.len()
            invariant
                i <= self.dentry@.len(),
                forall|j: int| 0 <= j < i ==> self.dentry@[j].parent != parent
                    || self.dentry@[j].name@ != name@,
            decreases self.dentry@.len() - i,
        {
            if self.dentry[i].parent == parent && self.dentry[i].name == *name {
                return Some(i);
            }
            i = i + 1;
        }
        None
    }

    /// The position found for a key is the one the view uses.
    proof fn lemma_dentry_index(&self, i: int)
        requires
            self.wf(),
            0 <= i < self.dentry@.len(),
        ensures
            self.dentries().contains_key((self.dentry@[i].parent, self.dentry@[i].name@)),
            self.dentries()[(self.dentry@[i].parent, self.dentry@[i].name@)] == self.dentry@[i].inode,
    {
    }

    /// Insert an inode id under its parent and name, replacing any entry for the same parent
    /// and name
    pub fn insert_dentry(&mut self, parent: INodeId, name: String, inode: INodeId)
        requires
            old(self).wf(),
        ensures
            final(self).wf(),
            final(self).state().inodes == old(self).state().inodes,
            final(self).state().order == old(self).state().order,
            final(self).state().dentries == old(self).state().dentries.insert((parent, name@), inode),
            final(self).spec_capacity() == old(self).spec_capacity(),
    {
        let ghost key_name = name@;
        let entry = Dentry { parent, name, inode };
        let ghost old_dentry = self.dentry@;
        match self.find_dentry(parent, &entry.name) {
            Some(i) => {
                self.dentry.set(i, entry);
                proof {
                    assert forall|j: int| 0 <= j < self.dentry@.len() implies
                        #[trigger] self.dentry@[j].parent == old_dentry[j].parent
                            && self.dentry@[j].name@ == old_dentry[j].name@ by {}
                    self.lemma_frame_dentries(old(self), (parent, key_name), inode, i as int);
                }
            },
            None => {
                self.dentry.push(entry);
                proof {
                    self.lemma_frame_dentries(old(self), (parent, key_name), inode, old_dentry.len() as int);
                }
            },
        }
    }

    /// After writing the entry at position `i` (an existing one for the same key, or a new one
    /// at the end), the view is the old view with the key mapped to `inode`.
    proof fn lemma_frame_dentries(&self, before: &Self, key: (INodeId, Seq<char>), inode: INodeId, i: int)
        requires
            before.wf(),
            self.wf(),
            0 <= i < self.dentry@.len(),
            i < before.dentry@.len() ==> self.dentry@.len() == before.dentry@.len()
                && before.dentry@[i].parent == key.0 && before.dentry@[i].name@ == key.1,
            i >= before.dentry@.len() ==> i == before.dentry@.len()
                && self.dentry@.len() == before.dentry@.len() + 1
                && !before.dentries().contains_key(key),
            self.dentry@[i].parent == key.0 && self.dentry@[i].name@ == key.1 && self.dentry@[i].inode == inode,
            forall|j: int| 0 <= j < before.dentry@.len() && j != i ==> self.dentry@[j] == before.dentry@[j],
            self.inodes@ == before.inodes@,
            self.order@ == before.order@,
            self.capacity == before.capacity,
        ensures
            self.dentries() == before.dentries().insert(key, inode),
    {
        let new_map = before.dentries().insert(key, inode);
        assert forall|k: (INodeId, Seq<char>)| #![auto] self.dentries().contains_key(k) == new_map.contains_key(k) by {}
        assert forall|k: (INodeId, Seq<char>)| #[trigger] self.dentries().contains_key(k) implies
            self.dentries()[k] == new_map[k] by {
            if k == key {
                self.lemma_dentry_index(i);
            } else {
                let j0 = before.dentry_index(k);
                self.lemma_dentry_index(j0);
            }
        }
    }

    /// Get an inode id from its parent and name
    pub fn get_dentry(&self, parent: INodeId, name: &str) -> (inode: Option<INodeId>)
        requires
            self.wf(),
        ensures
            inode == (if self.state().dentries.contains_key((parent, name@)) {
                Some(self.state().dentries[(parent, name@)])
            } else {
                None
            }),
    {
        let name = name.to_owned();
        match self.find_dentry(parent, &name) {
            Some(i) => {
                proof {
                    self.lemma_dentry_index(i as int);
                }
                Some(self.dentry[i].inode)
            },
            None => None,
        }
    }
}

} // verus!
