//! An implementation of the global descriptor table
use vstd::prelude::*;
use crate::arch::tss::TSS_SIZE;

verus! {

/// The LONG_MODE flag determines whether a code segment contains 64-bit code
pub const LONG_MODE: u64 = 0x20_0000_0000_0000;

/// Indicates whether the segment is present in memory
pub const PRESENT: u64 = 0x8000_0000_0000;

/// Specifies whether the segment descriptor is for a system segment or a code or data segment
pub const CODE_DATA: u64 = 0x1000_0000_0000;

/// Indicates whether the descriptor is for a data segment or a code segment. EXECUTE corresponds to
/// the high bit of the type field
pub const EXECUTE: u64 = 0x800_0000_0000;

/// Common flags for segment descriptors
pub struct DescriptorFlags;

/// A builder for a segment descriptor as defined in figure 3-8
#[derive(Debug, Clone, Copy, PartialEq, Eq, Structural)]
pub struct SegmentDescriptor {
    pub descriptor: u64,
}

/// The descriptor of a code or data segment with the default flags: 64-bit, present, code or
/// data, and type 0b010 (a writable data or readable code segment).
pub open spec fn code_or_data_spec() -> u64 {
    LONG_MODE | PRESENT | CODE_DATA | ((0b010u64 & 0b111u64) << 40u64)
}

/// `descriptor` with its privilege level (DPL, bits 45..47) set to the low two bits of `level`
pub open spec fn with_privilege_level(descriptor: u64, level: u8) -> u64 {
    (descriptor & !(0b11u64 << 45u64)) | (((level as u64) & 0b11u64) << 45u64)
}

/// `descriptor` with the low three bits of its type (bits 40..43) set to the low three bits of
/// `segment_type`
pub open spec fn with_type(descriptor: u64, segment_type: u8) -> u64 {
    (descriptor & !(0b111u64 << 40u64)) | (((segment_type as u64) & 0b111u64) << 40u64)
}

/// The TSS descriptor that `as_tss_descriptor` builds from a segment descriptor and a base.
pub open spec fn tss_descriptor_spec(descriptor: u64, base: u128) -> u128 {
    let limit = (TSS_SIZE - 1) as u128;
    (descriptor as u128) | ((base & 0xffffu128) << 16u128) | ((base & (0xffu128 << 16u128)) << 16u128)
        | ((base & (0xffu128 << 24u128)) << 32u128) | ((base & (0xffff_ffffu128 << 32u128)) << 32u128)
        | (limit & 0xffffu128) | ((limit & (0xfu128 << 16u128)) << 32u128)
}

/// The base address that a TSS descriptor holds: bits 16..40, 56..64 and 64..96.
pub open spec fn tss_descriptor_base(descriptor: u128) -> u128 {
    ((descriptor >> 16u128) & 0xff_ffffu128) | (((descriptor >> 56u128) & 0xffu128) << 24u128)
        | (((descriptor >> 64u128) & 0xffff_ffffu128) << 32u128)
}

impl SegmentDescriptor {
    /// Create a new empty segment descriptor
    pub fn new() -> (descriptor: SegmentDescriptor)
        ensures
            descriptor.descriptor == 0,
    {
        SegmentDescriptor { descriptor: 0 }
    }

    /// Create a new segment descriptor with default flags for code or data
    pub fn code_or_data() -> (descriptor: SegmentDescriptor)
        ensures
            descriptor.descriptor == code_or_data_spec(),
    {
        let descriptor = SegmentDescriptor { descriptor: LONG_MODE | PRESENT | CODE_DATA };
        let descriptor = descriptor.set_type(0b010);
        assert(with_type(LONG_MODE | PRESENT | CODE_DATA, 0b010u8) == code_or_data_spec()) by (bit_vector);
        descriptor
    }

    /// Set flags
    pub fn set_flags(self, flags: u64) -> (descriptor: SegmentDescriptor)
        ensures
            descriptor.descriptor == self.descriptor | flags,
    {
        SegmentDescriptor { descriptor: self.descriptor | flags }
    }

    /// Set descriptor privilege level (DPL): the level replaces the one the descriptor had
    pub fn set_privilege_level(self, level: u8) -> (descriptor: SegmentDescriptor)
        ensures
            descriptor.descriptor == with_privilege_level(self.descriptor, level),
    {
        SegmentDescriptor { descriptor: (self.descriptor & !(0b11u64 << 45)) | (((level as u64) & 0b11) << 45) }
    }

    /// Set the lowest 3 bits of type as defined in Table 3-1. Code- and Data-Segment Types: they
    /// replace the bits the descriptor had there
    pub fn set_type(self, segment_type: u8) -> (descriptor: SegmentDescriptor)
        ensures
            descriptor.descriptor == with_type(self.descriptor, segment_type),
    {
        SegmentDescriptor { descriptor: (self.descriptor & !(0b111u64 << 40)) | (((segment_type as u64) & 0b111) << 40) }
    }

    /// Turn the segment descriptor into a tss descriptor, its still required that the caller
    /// properly sets type field correctly and enables the present flag
    pub fn as_tss_descriptor(self, base: u128) -> (tss: TssDescriptor)
        ensures
            tss.descriptor == tss_descriptor_spec(self.descriptor, base),
    {
        let limit = (TSS_SIZE - 1) as u128;
        let low_limit = limit & 0xffff;
        let high_limit = limit & (0xf << 16);
        let low_base = base & 0xffff;
        let mid_low_base = base & (0xff << 16);
        let mid_high_base = base & (0xff << 24);
        let high_base = base & (0xffff_ffff << 32);
        TssDescriptor {
            descriptor: (self.descriptor as u128) | (low_base << 16) | (mid_low_base << 16) | (mid_high_base
                << 32) | (high_base << 32) | low_limit | (high_limit << 32),
        }
    }
}

/// A tss descriptor as defined in figure 10-4
#[derive(Debug, Clone, Copy, PartialEq, Eq, Structural)]
pub struct TssDescriptor {
    pub descriptor: u128,
}

/// The global descriptor table
pub struct GlobalDescriptorTable {
    pub null: SegmentDescriptor,
    pub kernel_code: SegmentDescriptor,
    pub kernel_data: SegmentDescriptor,
    pub user_data: SegmentDescriptor,
    pub user_code: SegmentDescriptor,
    pub tss: TssDescriptor,
}

impl GlobalDescriptorTable {
    /// Create a new global descriptor table with an uninitialized tss descriptor: kernel code
    /// and data at privilege level 0, user data and code at privilege level 3
    pub fn uninit() -> (gdt: GlobalDescriptorTable)
        ensures
            gdt.null.descriptor == code_or_data_spec(),
            gdt.kernel_code.descriptor == code_or_data_spec() | EXECUTE,
            gdt.kernel_data.descriptor == code_or_data_spec(),
            gdt.user_data.descriptor == code_or_data_spec() | ((3u64 & 0b11u64) << 45u64),
            gdt.user_code.descriptor == (code_or_data_spec() | EXECUTE) | ((3u64 & 0b11u64) << 45u64),
            gdt.tss.descriptor == 0,
    {
        assert(with_privilege_level(code_or_data_spec(), 3u8) == code_or_data_spec() | ((3u64 & 0b11u64) << 45u64))
            by (bit_vector);
        assert(with_privilege_level(code_or_data_spec() | EXECUTE, 3u8) == (code_or_data_spec() | EXECUTE) | ((3u64
            & 0b11u64) << 45u64)) by (bit_vector);
        GlobalDescriptorTable {
            null: SegmentDescriptor::code_or_data(),
            kernel_code: SegmentDescriptor::code_or_data().set_flags(EXECUTE),
            kernel_data: SegmentDescriptor::code_or_data(),
            user_data: SegmentDescriptor::code_or_data().set_privilege_level(3),
            user_code: SegmentDescriptor::code_or_data().set_flags(EXECUTE).set_privilege_level(3),
            tss: TssDescriptor { descriptor: 0 },
        }
    }

    /// Create a new global descriptor table, the same table as `uninit` gives
    pub fn new() -> (gdt: GlobalDescriptorTable)
        ensures
            gdt.null.descriptor == code_or_data_spec(),
            gdt.kernel_code.descriptor == code_or_data_spec() | EXECUTE,
            gdt.kernel_data.descriptor == code_or_data_spec(),
            gdt.user_data.descriptor == code_or_data_spec() | ((3u64 & 0b11u64) << 45u64),
            gdt.user_code.descriptor == (code_or_data_spec() | EXECUTE) | ((3u64 & 0b11u64) << 45u64),
            gdt.tss.descriptor == 0,
    {
        Self::uninit()
    }

    /// Initialize the global descriptor table with a tss at address `tss`: a present,
    /// available 64-bit TSS descriptor
    pub fn init_with_tss(&mut self, tss: u64)
        ensures
            final(self).tss.descriptor == tss_descriptor_spec(
                ((0u64 | (PRESENT | EXECUTE)) | ((0b001u64 & 0b111u64) << 40u64)),
                tss as u128,
            ),
            final(self).null == old(self).null,
            final(self).kernel_code == old(self).kernel_code,
            final(self).kernel_data == old(self).kernel_data,
            final(self).user_data == old(self).user_data,
            final(self).user_code == old(self).user_code,
    {
        assert(with_type(0u64 | (PRESENT | EXECUTE), 0b001u8) == (0u64 | (PRESENT | EXECUTE)) | ((0b001u64 & 0b111u64)
            << 40u64)) by (bit_vector);
        self.tss = SegmentDescriptor::new().set_flags(PRESENT | EXECUTE).set_type(0b001).as_tss_descriptor(
            tss as u128,
        );
    }
}

/// A TSS descriptor holds the base address it was built with, where the segment descriptor
/// it was built from leaves the base fields (bits 16..40 and 56..64) clear, as the descriptor
/// of `init_with_tss` does.
pub proof fn lemma_tss_base_round_trip(descriptor: u64, base: u128)
    requires
        descriptor & 0xff00_00ff_ffff_0000u64 == 0,
    ensures
        tss_descriptor_base(tss_descriptor_spec(descriptor, base)) == base & 0xffff_ffff_ffff_ffffu128,
{
    let d = descriptor as u128;
    assert(d & 0xff00_00ff_ffff_0000u128 == 0 && d <= 0xffff_ffff_ffff_ffffu128) by (bit_vector)
        requires
            descriptor & 0xff00_00ff_ffff_0000u64 == 0,
            d == descriptor as u128,
    ;
    let limit = 103u128;
    assert(((((d | ((base & 0xffffu128) << 16u128) | ((base & (0xffu128 << 16u128)) << 16u128)
        | ((base & (0xffu128 << 24u128)) << 32u128) | ((base & (0xffff_ffffu128 << 32u128)) << 32u128)
        | (limit & 0xffffu128) | ((limit & (0xfu128 << 16u128)) << 32u128)) >> 16u128) & 0xff_ffffu128)
        | ((((d | ((base & 0xffffu128) << 16u128) | ((base & (0xffu128 << 16u128)) << 16u128)
        | ((base & (0xffu128 << 24u128)) << 32u128) | ((base & (0xffff_ffffu128 << 32u128)) << 32u128)
        | (limit & 0xffffu128) | ((limit & (0xfu128 << 16u128)) << 32u128)) >> 56u128) & 0xffu128) << 24u128)
        | ((((d | ((base & 0xffffu128) << 16u128) | ((base & (0xffu128 << 16u128)) << 16u128)
        | ((base & (0xffu128 << 24u128)) << 32u128) | ((base & (0xffff_ffffu128 << 32u128)) << 32u128)
        | (limit & 0xffffu128) | ((limit & (0xfu128 << 16u128)) << 32u128)) >> 64u128) & 0xffff_ffffu128) << 32u128))
        == base & 0xffff_ffff_ffff_ffffu128) by (bit_vector)
        requires
            d & 0xff00_00ff_ffff_0000u128 == 0,
            d <= 0xffff_ffff_ffff_ffffu128,
            limit == 103u128,
    ;
}

/// The default code or data descriptor is a present (bit 47), 64-bit (L, bit 53) code or data
/// (S, bit 44) segment of privilege level 0 (bits 45..47) and type 0b010 (bits 40..44: a
/// writable data segment, or with EXECUTE a readable code segment).
pub proof fn lemma_code_or_data_flags()
    ensures
        (code_or_data_spec() >> 47u64) & 1 == 1,
        (code_or_data_spec() >> 53u64) & 1 == 1,
        (code_or_data_spec() >> 44u64) & 1 == 1,
        (code_or_data_spec() >> 45u64) & 0b11 == 0,
        (code_or_data_spec() >> 40u64) & 0b1111 == 0b0010,
        ((code_or_data_spec() | EXECUTE) >> 40u64) & 0b1111 == 0b1010,
        (with_privilege_level(code_or_data_spec(), 3) >> 45u64) & 0b11 == 3,
{
    assert((code_or_data_spec() >> 47u64) & 1 == 1 && (code_or_data_spec() >> 53u64) & 1 == 1
        && (code_or_data_spec() >> 44u64) & 1 == 1 && (code_or_data_spec() >> 45u64) & 0b11 == 0
        && (code_or_data_spec() >> 40u64) & 0b1111 == 0b0010 && ((code_or_data_spec() | EXECUTE) >> 40u64)
        & 0b1111 == 0b1010 && (with_privilege_level(code_or_data_spec(), 3) >> 45u64) & 0b11 == 3) by (bit_vector);
}

/// Setting the privilege level or the type changes those bits alone: the privilege level read
/// back is the one set, and every other bit stays.
pub proof fn lemma_set_fields(descriptor: u64, level: u8, segment_type: u8)
    ensures
        (with_privilege_level(descriptor, level) >> 45u64) & 0b11 == (level as u64) & 0b11,
        with_privilege_level(descriptor, level) & !(0b11u64 << 45u64) == descriptor & !(0b11u64 << 45u64),
        (with_type(descriptor, segment_type) >> 40u64) & 0b111 == (segment_type as u64) & 0b111,
        with_type(descriptor, segment_type) & !(0b111u64 << 40u64) == descriptor & !(0b111u64 << 40u64),
{
    let l = level as u64;
    let t = segment_type as u64;
    assert((((descriptor & !(0b11u64 << 45u64)) | ((l & 0b11u64) << 45u64)) >> 45u64) & 0b11 == l & 0b11
        && ((descriptor & !(0b11u64 << 45u64)) | ((l & 0b11u64) << 45u64)) & !(0b11u64 << 45u64) == descriptor
        & !(0b11u64 << 45u64)) by (bit_vector);
    assert((((descriptor & !(0b111u64 << 40u64)) | ((t & 0b111u64) << 40u64)) >> 40u64) & 0b111 == t & 0b111
        && ((descriptor & !(0b111u64 << 40u64)) | ((t & 0b111u64) << 40u64)) & !(0b111u64 << 40u64) == descriptor
        & !(0b111u64 << 40u64)) by (bit_vector);
}

} // verus!
