//! An implementation of task state segments
use vstd::prelude::*;

verus! {

/// The size of a task state segment in bytes.
pub const TSS_SIZE: u16 = 104;

/// The task state segment contains RSP0-2, IST1-7 and the I/O Map Base Address
pub struct TaskStateSegment {
    pub reserved1: u32,
    pub rsp: [u64; 3],
    pub reserved2: u64,
    pub ist: [u64; 7],
    pub reserved3: u64,
    pub reserved4: u16,
    pub io_map: u16,
}

impl TaskStateSegment {
    /// Create a new task state segment with an uninitialized rsp0: every stack pointer zero
    /// and the I/O map base just past the segment, so that there is no I/O permission map
    pub fn uninit() -> (tss: TaskStateSegment)
        ensures
            tss.rsp@ == seq![0u64, 0u64, 0u64],
            tss.ist@ == seq![0u64, 0u64, 0u64, 0u64, 0u64, 0u64, 0u64],
            tss.reserved1 == 0 && tss.reserved2 == 0 && tss.reserved3 == 0 && tss.reserved4 == 0,
            tss.io_map == TSS_SIZE,
    {
        let tss = TaskStateSegment {
            reserved1: 0,
            rsp: [0u64, 0u64, 0u64],
            reserved2: 0,
            ist: [0u64, 0u64, 0u64, 0u64, 0u64, 0u64, 0u64],
            reserved3: 0,
            reserved4: 0,
            io_map: TSS_SIZE,
        };
        tss
    }

    /// Set the stack pointer loaded on entry to ring 0
    pub fn set_rsp0(&mut self, rsp0: u64)
        ensures
            final(self).rsp@ == old(self).rsp@.update(0, rsp0),
            final(self).ist == old(self).ist,
            final(self).io_map == old(self).io_map,
            final(self).reserved1 == old(self).reserved1,
            final(self).reserved2 == old(self).reserved2,
            final(self).reserved3 == old(self).reserved3,
            final(self).reserved4 == old(self).reserved4,
    {
        self.rsp[0] = rsp0;
    }
}

} // verus!
