//! The root file system
use vstd::prelude::*;
use crate::vfs::error::VfsError;
use crate::vfs::inode::INodeNumber;

verus! {

/// The root file system is a flat directory that can only contain subdirectories
pub struct RootFs {
    entries: Vec<(String, INodeNumber)>,
    next: u128,
}

impl View for RootFs {
    type V = Map<Seq<char>, INodeNumber>;

    /// The subdirectories by name.
    closed spec fn view(&self) -> Map<Seq<char>, INodeNumber> {
        Map::new(
            |name: Seq<char>| exists|i: int| 0 <= i < self.entries@.len() && self.entries@[i].0@ == name,
            |name: Seq<char>| self.entries@[self.index_of(name)].1,
        )
    }
}

impl RootFs {
    /// The position of the entry named `name`.
    closed spec fn index_of(&self, name: Seq<char>) -> int {
        choose|i: int| 0 <= i < self.entries@.len() && self.entries@[i].0@ == name
    }

    /// No two entries have the same name, and every inode number given out is at most the
    /// last one.
    pub closed spec fn wf(&self) -> bool {
        &&& forall|i: int, j: int|
            0 <= i < self.entries@.len() && 0 <= j < self.entries@.len() && i != j
                ==> self.entries@[i].0@ != self.entries@[j].0@
        &&& forall|i: int| 0 <= i < self.entries@.len() ==> (#[trigger] self.entries@[i]).1.num <= self.next
    }

    /// Every directory has an inode number given out already: at most the last one.
    pub proof fn lemma_numbers_given_out(&self, name: Seq<char>)
        requires
            self.wf(),
            self@.contains_key(name),
        ensures
            self@[name].num <= self.last_number(),
    {
    }

    /// The number given to the last directory created, zero before the first.
    pub closed spec fn last_number(&self) -> u128 {
        self.next
    }

    /// What looking `name` up gives.
    pub open spec fn lookup_spec(&self, name: Seq<char>) -> Result<INodeNumber, VfsError> {
        if self@.contains_key(name) {
            Ok(self@[name])
        } else {
            Err(VfsError::NoSuchFile)
        }
    }

    /// Create a new root file system
    pub fn new() -> (fs: RootFs)
        ensures
            fs.wf(),
            fs@ == Map::<Seq<char>, INodeNumber>::empty(),
            fs.last_number() == 0,
    {
        let fs = RootFs { entries: Vec::new(), next: 0 };
        fs
    }

    /// The position of the entry named `name`, if there is one.
    fn find(&self, name: &String) -> (index: Option<usize>)
        requires
            self.wf(),
        ensures
            match index {
                Some(i) => i < self.entries@.len() && self.entries@[i as int].0@ == name@,
                None => !self@.contains_key(name@),
            },
    {
        let mut i: usize = 0;
        while i < self.entries.len()
            invariant
                i <= self.entries@.len(),
                forall|j: int| 0 <= j < i ==> self.entries@[j].0@ != name@,
            decreases self.entries@.len() - i,
        {
            if self.entries[i].0 == *name {
                return Some(i);
            }
            i = i + 1;
        }
        None
    }

    /// Lookup a directory by name; the parent is ignored since the root is flat
    pub fn lookup(&self, _parent: INodeNumber, name: &str) -> (inode_num: Result<INodeNumber, VfsError>)
        requires
            self.wf(),
        ensures
            inode_num == self.lookup_spec(name@),
    {
        let name = name.to_owned();
        match self.find(&name) {
            Some(i) => {
                Ok(self.entries[i].1)
            },
            None => Err(VfsError::NoSuchFile),
        }
    }

    /// Create a subdirectory: it gets the next inode number, and replaces any directory of the
    /// same name. Fails with `OutOfId` once the inode numbers are used up.
    pub fn create_dir(&mut self, _parent: INodeNumber, name: &str) -> (result: Result<(), VfsError>)
        requires
            old(self).wf(),
        ensures
            final(self).wf(),
            old(self).last_number() == u128::MAX ==> {
                &&& result == Err::<(), VfsError>(VfsError::OutOfId)
                &&& final(self)@ == old(self)@
                &&& final(self).last_number() == old(self).last_number()
            },
            old(self).last_number() < u128::MAX ==> {
                &&& result == Ok::<(), VfsError>(())
                &&& final(self).last_number() == old(self).last_number() + 1
                &&& final(self)@ == old(self)@.insert(
                    name@,
                    INodeNumber { num: final(self).last_number(), generation: None },
                )
            },
    {
        if self.next == u128::MAX {
            return Err(VfsError::OutOfId);
        }
        self.next = self.next + 1;
        let number = INodeNumber::new(self.next, false);
        let name = name.to_owned();
        let ghost old_entries = self.entries@;
        match self.find(&name) {
            Some(i) => {
                self.entries.set(i, (name, number));
                proof {
                    assert forall|j: int| 0 <= j < self.entries@.len() implies
                        #[trigger] self.entries@[j].0@ == old_entries[j].0@ by {}
                    assert forall|key: Seq<char>| #![auto] self@.contains_key(key)
                        == old(self)@.insert(name@, number).contains_key(key) by {
                        if key != name@ && old(self)@.contains_key(key) {
                            let k = old(self).index_of(key);
                            assert(self.entries@[k].0@ == key);
                        }
                        if key == name@ {
                            assert(self.entries@[i as int].0@ == key);
                        }
                    }
                    assert forall|key: Seq<char>| #[trigger] self@.contains_key(key) implies
                        self@[key] == old(self)@.insert(name@, number)[key] by {}
                }
            },
            None => {
                self.entries.push((name, number));
                proof {
                    let last = old_entries.len() as int;
                    assert forall|key: Seq<char>| #![auto] self@.contains_key(key)
                        == old(self)@.insert(name@, number).contains_key(key) by {
                        if key != name@ && old(self)@.contains_key(key) {
                            let k = old(self).index_of(key);
                            assert(self.entries@[k].0@ == key);
                        }
                        if key == name@ {
                            assert(self.entries@[last].0@ == key);
                        }
                    }
                    assert forall|key: Seq<char>| #[trigger] self@.contains_key(key) implies
                        self@[key] == old(self)@.insert(name@, number)[key] by {}
                }
            },
        }
        Ok(())
    }

    /// Reading is not supported by the root file system
    pub fn read(&self, _inode_num: INodeNumber, _offset: u64, _buf: &mut [u8]) -> (result: Result<u64, VfsError>)
        ensures
            result == Err::<u64, VfsError>(VfsError::Unsupported),
            final(_buf)@ == old(_buf)@,
    {
        Err(VfsError::Unsupported)
    }

    /// Writing is not supported by the root file system
    pub fn write(&self, _inode_num: INodeNumber, _offset: u64, _buf: &[u8]) -> (result: Result<u64, VfsError>)
        ensures
            result == Err::<u64, VfsError>(VfsError::Unsupported),
    {
        Err(VfsError::Unsupported)
    }
}

/// The inode numbers of the root file system are one time use: a directory that is created
/// gets a number that no directory had before.
pub proof fn lemma_created_number_is_fresh(old_fs: RootFs, new_fs: RootFs, name: Seq<char>, other: Seq<char>)
    requires
        old_fs.wf(),
        new_fs.last_number() == old_fs.last_number() + 1,
        new_fs@ == old_fs@.insert(name, INodeNumber { num: new_fs.last_number(), generation: None }),
        old_fs@.contains_key(other),
    ensures
        old_fs@[other].num != new_fs@[name].num,
{
    old_fs.lemma_numbers_given_out(other);
}

} // verus!
