//! A small x86_64 kernel: its allocators, virtual file system, archive parser,
//! descriptor tables and syscall routing, written as a verified library.
use vstd::prelude::*;

pub mod bitmap;
pub mod mem;
pub mod text;
pub mod vfs;
pub mod fs;
pub mod parse;
pub mod arch;
pub mod scheduler;
pub mod syscall;
pub mod drivers;
pub mod device;
pub mod loader;
