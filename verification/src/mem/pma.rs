//! The physical memory allocator handles allocation of physical frames, it does not concern
//! itself with virtual memory.
use vstd::prelude::*;
use crate::bitmap::{chunks_view, write_bit, chunk_bit, lemma_chunk_full};
use core::ops::Range;

verus! {

/// The size of a physical frame in bytes.
pub const FRAME_SIZE: usize = 4096;

/// The number of 128-frame chunks tracked by the allocator.
pub const CHUNKS: usize = 2048;

/// The number of physical frames tracked by the allocator.
pub const FRAMES: usize = 262144;

/// The UEFI memory type of conventional memory, which is free for the kernel to use.
pub const MEMORY_TYPE_CONVENTIONAL: u32 = 7;

/// One entry of the firmware's memory map.
#[derive(Clone, Copy)]
pub struct MemoryDescriptor {
    /// The UEFI memory type.
    pub ty: u32,
    /// The physical address where the region starts.
    pub phys_start: u64,
    /// The number of 4 KiB pages in the region.
    pub page_count: u64,
}

/// Whether the memory map releases frame `f` to the allocator: some conventional region that
/// does not start at address zero covers it.
pub open spec fn released(mmap: Seq<MemoryDescriptor>, f: int) -> bool {
    exists|i: int|
        0 <= i < mmap.len() && #[trigger] covers(mmap[i], f)
}

/// A conventional region that does not start at address zero and covers frame `f`.
pub open spec fn covers(d: MemoryDescriptor, f: int) -> bool {
    &&& d.ty == MEMORY_TYPE_CONVENTIONAL
    &&& d.phys_start > 0
    &&& d.phys_start / 4096 <= f < d.phys_start / 4096 + d.page_count
}

/// Every region that the allocator takes from the memory map lies inside the tracked frames.
pub open spec fn mmap_in_range(mmap: Seq<MemoryDescriptor>) -> bool {
    forall|i: int|
        0 <= i < mmap.len() && (#[trigger] mmap[i]).ty == MEMORY_TYPE_CONVENTIONAL
            && mmap[i].phys_start > 0 ==> mmap[i].phys_start / 4096 + mmap[i].page_count <= FRAMES
}

/// Whether frames `start .. start + n` are all free (their bits are clear).
pub open spec fn run_free(used: Seq<bool>, start: int, n: int) -> bool {
    forall|j: int| start <= j < start + n ==> !(#[trigger] used[j])
}

/// Where `n` frames starting at `start` may be handed out: an allocation of at most 128
/// frames lies within one 128-frame chunk.
pub open spec fn in_one_chunk(start: int, n: int) -> bool {
    n > 128 || start / 128 == (start + n - 1) / 128
}

/// Frames `start .. start + n` exist, are free and may be handed out together.
pub open spec fn fitting_run(used: Seq<bool>, start: int, n: int) -> bool {
    &&& 0 <= start
    &&& start + n <= used.len()
    &&& run_free(used, start, n)
    &&& in_one_chunk(start, n)
}

/// The lowest frame where `n` free frames that may be handed out together start.
pub open spec fn lowest_free_run(used: Seq<bool>, start: int, n: int) -> bool {
    &&& fitting_run(used, start, n)
    &&& forall|s: int| 0 <= s < start ==> !#[trigger] fitting_run(used, s, n)
}

/// No `n` free frames that may be handed out together exist.
pub open spec fn no_free_run(used: Seq<bool>, n: int) -> bool {
    forall|s: int| 0 <= s ==> !#[trigger] fitting_run(used, s, n)
}

/// `used` with frames `start .. start + n` set to `value`.
pub open spec fn mark(used: Seq<bool>, start: int, n: int, value: bool) -> Seq<bool> {
    Seq::new(used.len(), |j: int| if start <= j < start + n { value } else { used[j] })
}

/// The physical memory allocator keeps one bit per frame; a set bit is a frame in use or
/// unavailable.
pub struct PhysicalMemoryAllocator {
    bitmap: Vec<u128>,
}

impl View for PhysicalMemoryAllocator {
    type V = Seq<bool>;

    /// Which frames are in use, by frame number.
    closed spec fn view(&self) -> Seq<bool> {
        chunks_view(self.bitmap@, FRAMES as nat)
    }
}

impl PhysicalMemoryAllocator {
    /// The allocator tracks exactly `FRAMES` frames.
    pub closed spec fn wf(&self) -> bool {
        self.bitmap@.len() == CHUNKS
    }

    /// The allocator has one entry per frame it tracks.
    pub proof fn lemma_view_len(&self)
        ensures
            self@.len() == FRAMES,
    {
    }

    /// Create a new physical memory allocator
    pub fn new() -> (pma: PhysicalMemoryAllocator)
        ensures
            pma.wf(),
            pma@ == Seq::new(FRAMES as nat, |f: int| true),
    {
        let mut chunks: Vec<u128> = Vec::new();
        let mut i: usize = 0;
        while i < CHUNKS
            invariant
                i <= CHUNKS,
                chunks@.len() == i,
                forall|j: int| 0 <= j < i ==> chunks@[j] == u128::MAX,
            decreases CHUNKS - i,
        {
            chunks.push(u128::MAX);
            i = i + 1;
        }
        let pma = PhysicalMemoryAllocator { bitmap: chunks };
        assert forall|f: int| 0 <= f < FRAMES implies pma@[f] by {
            lemma_chunk_full(f % 128);
        }
        pma
    }

    /// Set or clear the bit of one frame.
    fn write_frame(&mut self, frame: usize, value: bool)
        requires
            old(self).wf(),
            frame < FRAMES,
        ensures
            final(self).wf(),
            final(self)@ == old(self)@.update(frame as int, value),
    {
        write_bit(&mut self.bitmap, frame, value);
    }

    /// Whether a frame is in use.
    fn frame_used(&self, frame: usize) -> (used: bool)
        requires
            self.wf(),
            frame < FRAMES,
        ensures
            used == self@[frame as int],
    {
        let chunk = self.bitmap[frame / 128];
        let bit = (chunk >> (frame % 128)) & 1u128;
        proof {
            crate::bitmap::lemma_chunk_bit_values(chunk, (frame % 128) as u128);
        }
        bit == 1u128
    }

    /// Initialize the physical memory allocator with the firmware's memory map: every frame of
    /// a conventional region that does not start at address zero becomes free.
    pub fn init(&mut self, mmap: &[MemoryDescriptor])
        requires
            old(self).wf(),
            mmap_in_range(mmap@),
        ensures
            final(self).wf(),
            forall|f: int| 0 <= f < FRAMES ==>
                #[trigger] final(self)@[f] == (old(self)@[f] && !released(mmap@, f)),
    {
        let ghost start = self@;
        let mut i: usize = 0;
        while i < mmap.len()
            invariant
                self.wf(),
                i <= mmap@.len(),
                mmap_in_range(mmap@),
                start.len() == FRAMES,
                forall|f: int| 0 <= f < FRAMES ==>
                    #[trigger] self@[f] == (start[f] && !released(mmap@.take(i as int), f)),
            decreases mmap@.len() - i,
        {
            let descriptor = mmap[i];
            let ghost before = self@;
            if descriptor.ty == MEMORY_TYPE_CONVENTIONAL && descriptor.phys_start > 0 {
                let base = (descriptor.phys_start / 4096) as usize;
                let mut frame: u64 = 0;
                while frame < descriptor.page_count
                    invariant
                        self.wf(),
                        descriptor.ty == MEMORY_TYPE_CONVENTIONAL,
                        descriptor.phys_start > 0,
                        base == descriptor.phys_start / 4096,
                        base + descriptor.page_count <= FRAMES,
                        frame <= descriptor.page_count,
                        before.len() == FRAMES,
                        forall|f: int| 0 <= f < FRAMES ==>
                            #[trigger] self@[f] == (before[f] && !(base <= f < base + frame)),
                    decreases descriptor.page_count - frame,
                {
                    let bit = base + frame as usize;
                    self.write_frame(bit, false);
                    frame = frame + 1;
                }
            }
            proof {
                let next = mmap@.take(i + 1);
                assert forall|f: int| 0 <= f < FRAMES implies
                    #[trigger] self@[f] == (start[f] && !released(next, f)) by {
                    if covers(descriptor, f) {
                        assert(next[i as int] == descriptor);
                    }
                }
            }
            i = i + 1;
        }
        proof {
            assert(mmap@.take(mmap@.len() as int) =~= mmap@);
        }
    }

    /// Find the lowest continuous set of `frames` free physical frames that lies within one
    /// 128-frame chunk (where `frames` is at most 128) and return its range, or `None` where no
    /// such set exists.
    pub fn find_free(&self, frames: usize) -> (free: Option<Range<usize>>)
        requires
            self.wf(),
            frames > 0,
        ensures
            match free {
                Some(range) => {
                    &&& range.end == range.start + frames
                    &&& lowest_free_run(self@, range.start as int, frames as int)
                },
                None => no_free_run(self@, frames as int),
            },
    {
        let mut frame: usize = 0;
        let mut run: usize = 0;
        while frame < FRAMES
            invariant
                self.wf(),
                frames > 0,
                frame <= FRAMES,
                run <= frame,
                run < frames,
                run_free(self@, frame - run, run as int),
                frame - run == 0 || self@[frame - run - 1] || (frames <= 128 && (frame - run) % 128 == 0),
                frames <= 128 && run > 0 ==> (frame - run) / 128 == (frame - 1) / 128,
                forall|s: int| 0 <= s && s + frames <= frame ==> !#[trigger] fitting_run(self@, s, frames as int),
            decreases FRAMES - frame,
        {
            if frames <= 128 && frame % 128 == 0 {
                // a run may not reach across into this chunk
                run = 0;
            }
            if self.frame_used(frame) {
                proof {
                    assert forall|s: int| 0 <= s && s + frames <= frame + 1 implies
                        !#[trigger] fitting_run(self@, s, frames as int) by {
                        if s + frames == frame + 1 {
                            assert(!run_free(self@, s, frames as int));
                        }
                    }
                }
                run = 0;
            } else {
                let ghost start_before = frame - run;
                run = run + 1;
                assert(run_free(self@, frame + 1 - run, run as int)) by {
                    assert forall|j: int| frame + 1 - run <= j < frame + 1 implies !self@[j] by {}
                }
                if run == frames {
                    let start = frame + 1 - frames;
                    proof {
                        assert(fitting_run(self@, start as int, frames as int));
                    }
                    return Some(Range { start: start, end: frame + 1 });
                }
                proof {
                    assert forall|s: int| 0 <= s && s + frames <= frame + 1 implies
                        !#[trigger] fitting_run(self@, s, frames as int) by {
                        if s + frames == frame + 1 {
                            // the run that ends here starts after `s`: either a used frame or a
                            // chunk boundary lies between
                            assert(s < start_before);
                            if start_before > 0 && self@[start_before - 1] {
                                assert(!run_free(self@, s, frames as int));
                            } else {
                                assert(start_before % 128 == 0);
                                assert(s / 128 < frame / 128);
                            }
                        }
                    }
                }
            }
            frame = frame + 1;
        }
        None
    }

    /// Set or clear frames `start .. start + frames`.
    fn mark_frames(&mut self, start: usize, frames: usize, value: bool)
        requires
            old(self).wf(),
            start + frames <= FRAMES,
        ensures
            final(self).wf(),
            final(self)@ == mark(old(self)@, start as int, frames as int, value),
    {
        let ghost before = self@;
        let mut i: usize = 0;
        while i < frames
            invariant
                self.wf(),
                start + frames <= FRAMES,
                i <= frames,
                self@ == mark(before, start as int, i as int, value),
            decreases frames - i,
        {
            self.write_frame(start + i, value);
            i = i + 1;
        }
    }

    /// Allocate the lowest continuous set of `frames` free physical frames within a 128 frame
    /// chunk (where `frames` is at most 128), mark them in use and return the physical address
    /// of the first one; `None` where no such set exists.
    pub fn allocate(&mut self, frames: usize) -> (address: Option<usize>)
        requires
            old(self).wf(),
            frames > 0,
        ensures
            final(self).wf(),
            match address {
                Some(a) => exists|start: int| {
                    &&& a == start * FRAME_SIZE
                    &&& #[trigger] lowest_free_run(old(self)@, start, frames as int)
                    &&& final(self)@ == mark(old(self)@, start, frames as int, true)
                },
                None => {
                    &&& no_free_run(old(self)@, frames as int)
                    &&& final(self)@ == old(self)@
                },
            },
    {
        match self.find_free(frames) {
            Some(free) => {
                self.mark_frames(free.start, frames, true);
                Some(free.start * FRAME_SIZE)
            },
            None => None,
        }
    }

    /// Free a continuous set of physical frames starting at `address`.
    ///
    /// The caller must ensure that the address and frame count describe frames it owns.
    pub fn free(&mut self, address: usize, frames: usize)
        requires
            old(self).wf(),
            frames > 0,
            address / FRAME_SIZE + frames <= FRAMES,
        ensures
            final(self).wf(),
            final(self)@ == mark(old(self)@, (address / FRAME_SIZE) as int, frames as int, false),
    {
        let base = address / FRAME_SIZE;
        self.mark_frames(base, frames, false);
    }
}

/// Freeing the frames that an allocation took gives back the allocator it started from: they
/// were all free before.
pub proof fn lemma_allocate_then_free(used: Seq<bool>, start: int, frames: int)
    requires
        lowest_free_run(used, start, frames),
    ensures
        mark(mark(used, start, frames, true), start, frames, false) == used,
{
}

/// Two allocations in a row hand out frames that do not overlap.
pub proof fn lemma_allocations_disjoint(used: Seq<bool>, first: int, first_frames: int, second: int, second_frames: int)
    requires
        first_frames > 0,
        second_frames > 0,
        lowest_free_run(used, first, first_frames),
        lowest_free_run(mark(used, first, first_frames, true), second, second_frames),
    ensures
        second + second_frames <= first || first + first_frames <= second,
{
    let after = mark(used, first, first_frames, true);
    if !(second + second_frames <= first || first + first_frames <= second) {
        let overlap = if second <= first { first } else { second };
        assert(after[overlap]);
    }
}

} // verus!
