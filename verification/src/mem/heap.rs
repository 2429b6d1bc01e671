//! The arithmetic of the kernel heap: where a block's header goes, how large a block an
//! allocation needs, and how a freed pointer leads back to its block.
use vstd::prelude::*;

verus! {

/// The size of a block header in memory: the link to the next free block (16 bytes), the
/// size and the padding.
pub const HEADER_SIZE: usize = 32;

/// Every block has a block header, the block header will always be between the padding and the
/// block, free blocks must have zero padding
#[derive(Debug, Clone, Copy, PartialEq, Eq, Structural)]
pub struct BlockHeader {
    /// The address of the next free block, for a block on the free list
    pub next: Option<usize>,
    /// The size of the block, the header included, the padding before it excluded
    pub size: usize,
    /// The number of bytes between the start of the block and its header
    pub padding: usize,
}

impl BlockHeader {
    pub fn new(next: Option<usize>, size: usize, padding: usize) -> (header: BlockHeader)
        ensures
            header.next == next,
            header.size == size,
            header.padding == padding,
    {
        BlockHeader { next, size, padding }
    }
}

/// The size of the block an allocation of `size` bytes aligned to `align` takes: room for the
/// worst padding, the header and the data
pub fn block_size(size: usize, align: usize) -> (block: usize)
    requires
        align >= 1,
        (align - 1) + HEADER_SIZE + size <= usize::MAX,
    ensures
        block == (align - 1) + HEADER_SIZE + size,
{
    (align - 1) + HEADER_SIZE + size
}

/// The number of 4 KiB frames that hold `size` bytes
pub fn frames_for(size: usize) -> (frames: usize)
    ensures
        frames * 4096 >= size,
        frames == 0 || (frames - 1) * 4096 < size,
{
    let frames = size / 4096 + if size % 4096 == 0 { 0 } else { 1 };
    assert(frames * 4096 >= size && (frames == 0 || (frames - 1) * 4096 < size)) by (nonlinear_arith)
        requires
            frames == size / 4096 + if size % 4096 == 0 { 0int } else { 1int },
    ;
    frames
}

/// The number of bytes to add to `address` to make it a multiple of `align`
pub fn align_offset(address: usize, align: usize) -> (offset: usize)
    requires
        align >= 1,
    ensures
        offset < align,
        (address + offset) % (align as int) == 0,
{
    let rem = address % align;
    let offset = if rem == 0 { 0 } else { align - rem };
    assert((address + offset) % (align as int) == 0) by (nonlinear_arith)
        requires
            align >= 1,
            rem == address % align,
            offset == if rem == 0 { 0int } else { align - rem },
    ;
    offset
}

/// Where an allocation goes in a block: the header moves up by the padding that aligns the
/// data, keeps the link, and the data starts right after it.
pub struct Placement {
    /// The address of the block's header after the move
    pub header_address: usize,
    /// The header written there
    pub header: BlockHeader,
    /// The address handed to the caller
    pub data: usize,
}

/// Place an allocation aligned to `align` in the block whose header, at `header_address`,
/// reads `header`: the padding that aligns the byte after the header is inserted before the
/// header, and the block's size shrinks by as much
pub fn place(header_address: usize, header: BlockHeader, align: usize) -> (placement: Placement)
    requires
        align >= 1,
        header_address + HEADER_SIZE + align <= usize::MAX,
        header.size >= align - 1,
    ensures
        placement.header.padding < align,
        placement.header_address == header_address + placement.header.padding,
        placement.data == placement.header_address + HEADER_SIZE,
        (placement.data as int) % (align as int) == 0,
        placement.header.next == header.next,
        placement.header.size == header.size - placement.header.padding,
{
    let padding = align_offset(header_address + HEADER_SIZE, align);
    let new_header = header_address + padding;
    Placement {
        header_address: new_header,
        header: BlockHeader::new(header.next, header.size - padding, padding),
        data: new_header + HEADER_SIZE,
    }
}

/// Give back the block of the allocation at `data` whose header reads `header`: the block
/// starts `padding` bytes before the header and, with the padding folded back in, is
/// `size + padding` bytes long with no padding; it is not linked to any other block yet
pub fn release(data: usize, header: BlockHeader) -> (block: (usize, BlockHeader))
    requires
        data >= HEADER_SIZE + header.padding,
        header.size + header.padding <= usize::MAX,
    ensures
        block.0 == data - HEADER_SIZE - header.padding,
        block.1 == (BlockHeader { next: None, size: (header.size + header.padding) as usize, padding: 0 }),
{
    let header_address = data - HEADER_SIZE;
    let block_address = header_address - header.padding;
    (block_address, BlockHeader::new(None, header.size + header.padding, 0))
}

/// Releasing an allocation gives back the block it was placed in: the block starts where
/// the header stood before the placement, and is as large as it was.
pub proof fn lemma_place_then_release(
    header_address: usize,
    size: usize,
    placed_address: usize,
    placed: BlockHeader,
    data: usize,
)
    requires
        placed_address == header_address + placed.padding,
        data == placed_address + HEADER_SIZE,
        placed.size == size - placed.padding,
        placed.padding <= size,
    ensures
        data - HEADER_SIZE - placed.padding == header_address,
        placed.size + placed.padding == size,
{
}

/// An allocation placed in a block of `block_size(size, align)` bytes or more fits inside the
/// block: its data ends before the block does.
pub proof fn lemma_placement_fits(header_address: usize, block: usize, request: usize, align: usize, padding: usize)
    requires
        align >= 1,
        block >= (align - 1) + HEADER_SIZE + request,
        padding < align,
    ensures
        header_address + padding + HEADER_SIZE + request <= header_address + block,
{
}

} // verus!
