//! ramfs is a ram-only file system which does not use an underlying block device
use vstd::prelude::*;

verus! {

/// A file of the ram file system; it holds nothing yet
pub struct RamFile {}

/// A directory of the ram file system; it holds nothing yet
pub struct RamDirectory {}

} // verus!
