//! Loader errors
use vstd::prelude::*;
use crate::vfs::error::VfsError;

verus! {

/// An error while loading a program
#[derive(Debug, Clone, Copy, PartialEq, Eq, Structural)]
pub enum LoaderError {
    InvalidElf,
    Vfs(VfsError),
}

impl From<VfsError> for LoaderError {
    fn from(err: VfsError) -> (loader_err: LoaderError) {
        LoaderError::Vfs(err)
    }
}

impl vstd::std_specs::convert::FromSpecImpl<VfsError> for LoaderError {
    open spec fn obeys_from_spec() -> bool {
        true
    }

    open spec fn from_spec(v: VfsError) -> LoaderError {
        LoaderError::Vfs(v)
    }
}

} // verus!
