//! Code for working with 64-bit paging
use vstd::prelude::*;

verus! {

/// Represents the size of a page, modern processors support up to 1GiB pages
#[derive(Debug, Clone, Copy, PartialEq, Eq, Structural)]
pub enum PageSize {
    Page4KiB,
    Page2MiB,
    Page1GiB,
}

/// Represents the entire recursive page table, by the physical address of its PML4
pub struct PageTable {
    pub pml4: u64,
}

impl PageTable {
    /// Map a virtual address to a physical address, both addresses must be aligned to the page
    /// size. Mapping is not implemented yet: nothing is changed.
    pub fn map(_vaddr: u64, _paddr: u64, _size: PageSize) {
    }
}

/// Page table entry flags, only flags which are common between PML4E, PDPTE, PDE and PTE are represented
pub struct PageTableEntryFlags;

/// Must be 1 on all pages which you wish to use
pub const PRESENT: u64 = 1;

/// Indicates the ability to write to memory inside this page
pub const WRITE: u64 = 2;

/// Indicates the ability for usermode (ring 3) access to this page
pub const USER: u64 = 4;

/// If 1 then this will map the entry as a page, if 0 then the entry will reference a page table
pub const PAGE_SIZE: u64 = 0x80;

/// A generic page table entry, this can either be the PML4E, PDPTE, PDE or the PTE
#[derive(Debug, Clone, Copy, PartialEq, Eq, Structural)]
pub struct PageTableEntry {
    pub entry: u64,
}

impl PageTableEntry {
    /// A page table entry for the physical address `paddr` with the low flag byte `flags`, on a
    /// processor whose physical addresses are `width` bits wide (MAXPHYADDR): the address is
    /// cut to `width` bits and kept in place beside the flags.
    ///
    /// If it's mapped as a page then the offset of the physical address depends on the page
    /// size, however physical addresses fit this offset because alignment guarantees that
    /// these low bits are zero
    pub fn new(paddr: u64, flags: u64, width: u32) -> (entry: PageTableEntry)
        requires
            width < 64,
        ensures
            entry.entry == (flags & 0xffu64) | (paddr & (((1u64 << width) - 1) as u64)),
    {
        assert(1u64 << width >= 1u64) by (bit_vector)
            requires
                width < 64,
        ;
        PageTableEntry { entry: (flags & 0xff) | (paddr & ((1u64 << width) - 1)) }
    }
}

} // verus!
