//! The initramfs
use vstd::prelude::*;
use vstd::string::StringSliceAdditionalSpecFns;
use crate::parse::cpio::{CpioEntry, CpioParser, archive_entries, next_entry, lemma_next_entry_shrinks};
use crate::text::{chars_of, chars_equal, join_chars, joined};
use crate::vfs::error::VfsError;
use crate::vfs::inode::INodeNumber;

verus! {

/// Whether the entry at `path` is the child called `name` of the entry at `parent`: its path
/// is the parent's path, a '/' and the name (just the name under the root, whose path is
/// empty).
pub open spec fn is_child(path: Seq<char>, parent: Seq<char>, name: Seq<char>) -> bool {
    path == joined(parent, '/', name)
}

/// The initramfs is built into the kernel at compile-time and mounted as root at boot. Its
/// inode numbers are positions in its list of entries, position zero being the root.
pub struct InitramFs {
    entries: Vec<CpioEntry<'static>>,
}

impl View for InitramFs {
    type V = Seq<(Seq<char>, Seq<u8>)>;

    /// The paths and data of the entries, the root first.
    closed spec fn view(&self) -> Seq<(Seq<char>, Seq<u8>)> {
        self.entries@.map_values(|e: CpioEntry<'static>| (e.path@, e.data@))
    }
}

/// What looking `name` up under the entry at `parent` gives in a list of entries: the first
/// entry that is such a child.
pub open spec fn initramfs_lookup_spec(
    entries: Seq<(Seq<char>, Seq<u8>)>,
    parent: u128,
    name: Seq<char>,
) -> Result<INodeNumber, VfsError> {
    if parent >= entries.len() {
        Err(VfsError::NoSuchFile)
    } else if exists|i: int| 0 <= i < entries.len() && is_child(entries[i].0, entries[parent as int].0, name) {
        let i = choose|i: int|
            0 <= i < entries.len() && is_child(entries[i].0, entries[parent as int].0, name)
                && forall|j: int| 0 <= j < i ==> !is_child(entries[j].0, entries[parent as int].0, name);
        Ok(INodeNumber { num: i as u128, generation: None })
    } else {
        Err(VfsError::NoSuchFile)
    }
}

impl InitramFs {
    /// The UTF-8 bytes of the path of the entry at position `i`.
    pub closed spec fn path_bytes(&self, i: int) -> Seq<u8> {
        self.entries@[i].path.spec_bytes()
    }

    /// Create a new initramfs from an archive: a root entry with an empty path and no data,
    /// followed by every entry of the archive.
    pub fn new(archive: &'static [u8]) -> (fs: InitramFs)
        ensures
            fs@.len() == archive_entries(archive@).len() + 1,
            fs@[0] == (Seq::<char>::empty(), Seq::<u8>::empty()),
            forall|i: int| 0 <= i < archive_entries(archive@).len() ==> {
                &&& fs.path_bytes(i + 1) == (#[trigger] archive_entries(archive@)[i]).0
                &&& fs@[i + 1].1 == archive_entries(archive@)[i].1
            },
    {
        let root: &'static str = "";
        let empty: &'static [u8] = &[];
        let mut entries: Vec<CpioEntry<'static>> = Vec::new();
        entries.push(CpioEntry { path: root, data: empty });
        let mut parser = CpioParser::new(archive);
        let ghost all = archive_entries(archive@);
        let ghost mut rest = archive@;
        proof {
            reveal_strlit("");
        }
        loop
            invariant_except_break
                parser@ == rest,
            invariant
                entries@.len() >= 1,
                entries@[0].path@ == Seq::<char>::empty(),
                entries@[0].data@ == Seq::<u8>::empty(),
                all == archive_entries(archive@),
                entries@.len() - 1 + archive_entries(rest).len() == all.len(),
                forall|i: int| 0 <= i < entries@.len() - 1 ==> {
                    &&& entries@[i + 1].path.spec_bytes() == (#[trigger] all[i]).0
                    &&& entries@[i + 1].data@ == all[i].1
                },
                forall|i: int| 0 <= i < archive_entries(rest).len() ==>
                    #[trigger] archive_entries(rest)[i] == all[entries@.len() - 1 + i],
            ensures
                archive_entries(rest).len() == 0,
            decreases rest.len(),
        {
            let next = parser.next();
            match next {
                Some(entry) => {
                    proof {
                        lemma_next_entry_shrinks(rest);
                        let before = archive_entries(rest);
                        assert(before[0] == all[entries@.len() - 1]);
                        assert forall|i: int| 0 <= i < archive_entries(parser@).len() implies
                            #[trigger] archive_entries(parser@)[i] == all[entries@.len() + i] by {
                            assert(before[i + 1] == archive_entries(parser@)[i]);
                        }
                        rest = parser@;
                    }
                    entries.push(entry);
                },
                None => {
                    break;
                },
            }
        }
        let fs = InitramFs { entries };
        fs
    }

    /// The number of bytes of an entry.
    pub fn length(&self, inode_num: INodeNumber) -> (length: Result<u64, VfsError>)
        ensures
            length == (if inode_num.num < self@.len() {
                Ok::<u64, VfsError>(self@[inode_num.num as int].1.len() as u64)
            } else {
                Err::<u64, VfsError>(VfsError::NoSuchFile)
            }),
    {
        if inode_num.value() >= self.entries.len() as u128 {
            return Err(VfsError::NoSuchFile);
        }
        let entry = &self.entries[inode_num.value() as usize];
        Ok(entry.data.len() as u64)
    }

    /// Lookup an inode child from parent
    pub fn lookup(&self, parent: INodeNumber, name: &str) -> (inode_num: Result<INodeNumber, VfsError>)
        ensures
            inode_num == initramfs_lookup_spec(self@, parent.num, name@),
    {
        if parent.value() >= self.entries.len() as u128 {
            return Err(VfsError::NoSuchFile);
        }
        let p = parent.value() as usize;
        let parent_path = chars_of(self.entries[p].path);
        let name_chars = chars_of(name);
        let want = join_chars(&parent_path, '/', &name_chars);
        let ghost pp = self@[p as int].0;
        let mut i: usize = 0;
        while i < self.entries.len()
            invariant
                p < self@.len(),
                p == parent.num,
                pp == self@[p as int].0,
                want@ == joined(pp, '/', name@),
                i <= self@.len(),
                self@.len() == self.entries@.len(),
                forall|j: int| 0 <= j < i ==> !is_child(#[trigger] self@[j].0, pp, name@),
            decreases self.entries@.len() - i,
        {
            let path = chars_of(self.entries[i].path);
            if chars_equal(&path, &want) {
                proof {
                    // entry `i` is the first child of that name: the lowest index the
                    // specification can pick
                    assert(is_child(self@[i as int].0, pp, name@));
                    let k = choose|k: int|
                        0 <= k < self@.len() && is_child(self@[k].0, pp, name@)
                            && forall|j: int| 0 <= j < k ==> !is_child(self@[j].0, pp, name@);
                }
                return Ok(INodeNumber::new(i as u128, false));
            }
            i = i + 1;
        }
        Err(VfsError::NoSuchFile)
    }

    /// Directories cannot be created in the initramfs
    pub fn create_dir(&self, _parent: INodeNumber, _name: &str) -> (result: Result<(), VfsError>)
        ensures
            result == Err::<(), VfsError>(VfsError::Unsupported),
    {
        Err(VfsError::Unsupported)
    }

    /// Read the data of an entry from `offset` into `buf`, as much as fits, and return how many
    /// bytes were read. An offset at or past the end of the data gives `OutOfBounds`.
    pub fn read(&self, inode_num: INodeNumber, offset: u64, buf: &mut [u8]) -> (result: Result<u64, VfsError>)
        ensures
            final(buf)@.len() == old(buf)@.len(),
            inode_num.num >= self@.len() ==> result == Err::<u64, VfsError>(VfsError::NoSuchFile)
                && final(buf)@ == old(buf)@,
            inode_num.num < self@.len() ==> ({
                let data = self@[inode_num.num as int].1;
                if data.len() > offset {
                    let length = if data.len() - offset <= old(buf)@.len() {
                        data.len() - offset
                    } else {
                        old(buf)@.len() as int
                    };
                    &&& result == Ok::<u64, VfsError>(length as u64)
                    &&& final(buf)@ == data.subrange(offset as int, offset + length) + old(buf)@.skip(length)
                } else {
                    &&& result == Err::<u64, VfsError>(VfsError::OutOfBounds)
                    &&& final(buf)@ == old(buf)@
                }
            }),
    {
        if inode_num.value() >= self.entries.len() as u128 {
            return Err(VfsError::NoSuchFile);
        }
        let entry = &self.entries[inode_num.value() as usize];
        let data = entry.data;
        if (data.len() as u64) > offset {
            let start = offset as usize;
            let available = data.len() - start;
            let length = if available <= buf.len() { available } else { buf.len() };
            let end = start + length;
            let mut i: usize = 0;
            while i < length
                invariant
                    inode_num.num < self@.len(),
                    data@ == self@[inode_num.num as int].1,
                    start == offset,
                    end == start + length,
                    start + length <= data@.len(),
                    length <= buf@.len(),
                    i <= length,
                    buf@.len() == old(buf)@.len(),
                    buf@ == data@.subrange(start as int, start + i) + old(buf)@.skip(i as int),
                decreases length - i,
            {
                buf[i] = data[start + i];
                i = i + 1;
            }
            Ok(length as u64)
        } else {
            Err(VfsError::OutOfBounds)
        }
    }

    /// Writing is not supported by the initramfs
    pub fn write(&self, _inode_num: INodeNumber, _offset: u64, _buf: &[u8]) -> (result: Result<u64, VfsError>)
        ensures
            result == Err::<u64, VfsError>(VfsError::Unsupported),
    {
        Err(VfsError::Unsupported)
    }
}

} // verus!
