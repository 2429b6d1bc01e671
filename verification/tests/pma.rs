use kernel::mem::pma::{MemoryDescriptor, PhysicalMemoryAllocator, MEMORY_TYPE_CONVENTIONAL};

fn conventional(phys_start: u64, page_count: u64) -> MemoryDescriptor {
    MemoryDescriptor { ty: MEMORY_TYPE_CONVENTIONAL, phys_start, page_count }
}

#[test]
fn new_allocator_has_no_free_frames() {
    let mut pma = PhysicalMemoryAllocator::new();
    assert_eq!(pma.allocate(1), None);
    assert!(pma.find_free(1).is_none());
}

#[test]
fn init_frees_conventional_memory_only() {
    let mut pma = PhysicalMemoryAllocator::new();
    let mmap = [
        conventional(0, 16),
        MemoryDescriptor { ty: 2, phys_start: 0x10_0000, page_count: 8 },
        conventional(0x1000, 4),
    ];
    pma.init(&mmap);
    assert_eq!(pma.find_free(4), Some(1..5));
    assert!(pma.find_free(5).is_none());
}

#[test]
fn allocations_take_lowest_free_run() {
    let mut pma = PhysicalMemoryAllocator::new();
    pma.init(&[conventional(0x1000, 4)]);
    assert_eq!(pma.allocate(2), Some(0x1000));
    assert_eq!(pma.allocate(2), Some(0x3000));
    assert_eq!(pma.allocate(1), None);
}

#[test]
fn free_then_allocate_again() {
    let mut pma = PhysicalMemoryAllocator::new();
    pma.init(&[conventional(0x1000, 4)]);
    assert_eq!(pma.allocate(2), Some(0x1000));
    pma.free(0x1000, 2);
    assert_eq!(pma.allocate(4), Some(0x1000));
    pma.free(0x2000, 1);
    assert_eq!(pma.allocate(1), Some(0x2000));
}

#[test]
fn run_must_be_contiguous() {
    let mut pma = PhysicalMemoryAllocator::new();
    pma.init(&[conventional(0x1000, 2), conventional(0x4000, 3)]);
    assert_eq!(pma.find_free(3), Some(4..7));
    assert_eq!(pma.allocate(3), Some(0x4000));
    assert_eq!(pma.allocate(2), Some(0x1000));
}

#[test]
fn runs_stay_within_a_chunk() {
    let mut pma = PhysicalMemoryAllocator::new();
    pma.init(&[conventional(126 * 4096, 4)]);
    assert_eq!(pma.allocate(4), None);
    assert_eq!(pma.allocate(2), Some(126 * 4096));
    assert_eq!(pma.allocate(2), Some(128 * 4096));
}

#[test]
fn lowest_run_inside_one_chunk() {
    let mut pma = PhysicalMemoryAllocator::new();
    pma.init(&[conventional(127 * 4096, 2), conventional(200 * 4096, 2)]);
    assert_eq!(pma.find_free(2), Some(200..202));
    assert_eq!(pma.allocate(2), Some(200 * 4096));
    assert_eq!(pma.allocate(1), Some(127 * 4096));
}

#[test]
fn large_runs_span_chunks() {
    let mut pma = PhysicalMemoryAllocator::new();
    pma.init(&[conventional(100 * 4096, 200)]);
    assert_eq!(pma.allocate(129), Some(100 * 4096));
    assert_eq!(pma.allocate(128), None);
    assert_eq!(pma.allocate(28), Some(256 * 4096));
}
