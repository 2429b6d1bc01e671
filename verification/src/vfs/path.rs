//! Paths of the virtual file system
use vstd::prelude::*;
use vstd::string::StrSliceExecFns;
use crate::text::{split_str, split_spec};

verus! {

/// A path identifies an inode in the file system
pub struct OwnedPath {
    path: String,
}

impl View for OwnedPath {
    type V = Seq<char>;

    /// The characters of the path.
    closed spec fn view(&self) -> Seq<char> {
        self.path@
    }
}

/// Whether a path starts at the root directory.
pub open spec fn is_absolute_path(path: Seq<char>) -> bool {
    path.len() > 0 && path[0] == '/'
}

impl OwnedPath {
    /// Create a path holding a copy of `path`
    pub fn new(path: &str) -> (owned: OwnedPath)
        ensures
            owned@ == path@,
    {
        OwnedPath { path: path.to_owned() }
    }

    /// The components of the path: the pieces between the '/' separators, empty ones included
    pub fn components(&self) -> (components: Vec<String>)
        ensures
            components@.map_values(|c: String| c@) == split_spec(self@, '/'),
    {
        split_str(self.path.as_str(), '/')
    }

    /// Returns true if the path is absolute
    pub fn is_absolute(&self) -> (absolute: bool)
        ensures
            absolute == is_absolute_path(self@),
    {
        let path = self.path.as_str();
        path.unicode_len() > 0 && path.get_char(0) == '/'
    }
}

} // verus!
