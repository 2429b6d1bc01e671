//! Memory management: physical frames, the kernel heap's free list and paging.
pub mod pma;
pub mod paging;
pub mod heap;
