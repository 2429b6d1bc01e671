//! The interrupt descriptor table
use vstd::prelude::*;

verus! {

/// An interrupt gate descriptor as defined in figure 7-8
#[derive(Debug, Clone, Copy, PartialEq, Eq, Structural)]
pub struct InterruptGateDescriptor {
    pub descriptor: u128,
}

/// The interrupt gate descriptor for a handler at `offset` in the code segment `cs`: a present
/// 64-bit interrupt gate (type 0xe).
pub open spec fn gate_spec(offset: u64, cs: u16) -> u128 {
    ((offset as u128) & 0xffffu128) | (((offset as u128) & (0xffffu128 << 16u128)) << 32u128)
        | (((offset as u128) & (0xffff_ffffu128 << 32u128)) << 32u128) | ((cs as u128) << 16u128)
        | (0xeu128 << 40u128) | (1u128 << 47u128)
}

/// The handler offset that a gate descriptor holds: bits 0..16, 48..64 and 64..96.
pub open spec fn gate_offset(descriptor: u128) -> u128 {
    (descriptor & 0xffffu128) | (((descriptor >> 48u128) & 0xffffu128) << 16u128)
        | (((descriptor >> 64u128) & 0xffff_ffffu128) << 32u128)
}

/// The code segment selector that a gate descriptor holds: bits 16..32.
pub open spec fn gate_selector(descriptor: u128) -> u128 {
    (descriptor >> 16u128) & 0xffffu128
}

impl InterruptGateDescriptor {
    /// Create a new interrupt gate descriptor with an offset and segment selector, the segment
    /// selector must point to a valid 64-bit code segment
    pub fn new(offset: u64, cs: u16) -> (gate: InterruptGateDescriptor)
        ensures
            gate.descriptor == gate_spec(offset, cs),
    {
        let low_offset = (offset as u128) & 0xffff;
        let mid_offset = (offset as u128) & (0xffff << 16);
        let high_offset = (offset as u128) & (0xffff_ffff << 32);
        InterruptGateDescriptor {
            descriptor: low_offset | (mid_offset << 32) | (high_offset << 32) | ((cs as u128) << 16) | (0xe
                << 40) | (1 << 47),
        }
    }
}

/// The interrupt descriptor table tells the processor where to jump on interrupts
pub struct InterruptDescriptorTable {
    pub descriptors: [InterruptGateDescriptor; 256],
}

impl InterruptDescriptorTable {
    /// Create an uninitialized interrupt descriptor table: every gate empty
    pub fn uninit() -> (idt: InterruptDescriptorTable)
        ensures
            forall|i: int| 0 <= i < 256 ==> #[trigger] idt.descriptors@[i] == (InterruptGateDescriptor { descriptor: 0 }),
            idt.descriptors@.len() == 256,
    {
        let idt = InterruptDescriptorTable { descriptors: [InterruptGateDescriptor { descriptor: 0 }; 256] };
        idt
    }

    /// Initialize the interrupt descriptor table with the addresses of the kernel's handlers,
    /// all in the kernel code segment (selector 0x8)
    pub fn init(&mut self, double_fault: u64, gp_fault: u64, page_fault: u64, timer: u64, com1: u64)
        ensures
            final(self).descriptors@ == old(self).descriptors@
                .update(8, InterruptGateDescriptor { descriptor: gate_spec(double_fault, 0x8) })
                .update(13, InterruptGateDescriptor { descriptor: gate_spec(gp_fault, 0x8) })
                .update(14, InterruptGateDescriptor { descriptor: gate_spec(page_fault, 0x8) })
                .update(32, InterruptGateDescriptor { descriptor: gate_spec(timer, 0x8) })
                .update(36, InterruptGateDescriptor { descriptor: gate_spec(com1, 0x8) }),
    {
        self.descriptors[8] = InterruptGateDescriptor::new(double_fault, 0x8);
        self.descriptors[13] = InterruptGateDescriptor::new(gp_fault, 0x8);
        self.descriptors[14] = InterruptGateDescriptor::new(page_fault, 0x8);
        self.descriptors[32] = InterruptGateDescriptor::new(timer, 0x8);
        self.descriptors[36] = InterruptGateDescriptor::new(com1, 0x8);
    }
}

/// The descriptor pointer is used to specify the address and size of a descriptor table
#[derive(Debug, Clone, Copy, PartialEq, Eq, Structural)]
pub struct DescriptorTablePointer {
    pub limit: u16,
    pub base: u64,
}

/// An interrupt gate holds the handler offset and the code segment selector it was built
/// with.
pub proof fn lemma_gate_round_trip(offset: u64, cs: u16)
    ensures
        gate_offset(gate_spec(offset, cs)) == offset as u128,
        gate_selector(gate_spec(offset, cs)) == cs as u128,
{
    let o = offset as u128;
    let c = cs as u128;
    let g = (o & 0xffffu128) | ((o & (0xffffu128 << 16u128)) << 32u128) | ((o & (0xffff_ffffu128 << 32u128)) << 32u128)
        | (c << 16u128) | (0xeu128 << 40u128) | (1u128 << 47u128);
    assert((g & 0xffffu128) | (((g >> 48u128) & 0xffffu128) << 16u128) | (((g >> 64u128) & 0xffff_ffffu128) << 32u128) == o
        && (g >> 16u128) & 0xffffu128 == c) by (bit_vector)
        requires
            o <= 0xffff_ffff_ffff_ffffu128,
            c <= 0xffffu128,
            g == (o & 0xffffu128) | ((o & (0xffffu128 << 16u128)) << 32u128) | ((o & (0xffff_ffffu128 << 32u128)) << 32u128)
                | (c << 16u128) | (0xeu128 << 40u128) | (1u128 << 47u128),
    ;
}

/// An interrupt gate is a present 64-bit interrupt gate (type 0xe, bits 40..44) of privilege
/// level 0 (bits 45..47) with no interrupt stack (bits 32..35), whatever the handler and the
/// code segment.
pub proof fn lemma_gate_attributes(offset: u64, cs: u16)
    ensures
        (gate_spec(offset, cs) >> 40u128) & 0xfu128 == 0xeu128,
        (gate_spec(offset, cs) >> 45u128) & 0b11u128 == 0,
        (gate_spec(offset, cs) >> 47u128) & 1u128 == 1,
        (gate_spec(offset, cs) >> 32u128) & 0b111u128 == 0,
        gate_spec(offset, cs) >> 96u128 == 0,
{
    let o = offset as u128;
    let c = cs as u128;
    assert(o <= 0xffff_ffff_ffff_ffffu128 && c <= 0xffffu128);
    let g = (o & 0xffffu128) | ((o & (0xffffu128 << 16u128)) << 32u128) | ((o & (0xffff_ffffu128 << 32u128)) << 32u128)
        | (c << 16u128) | (0xeu128 << 40u128) | (1u128 << 47u128);
    assert((g >> 40u128) & 0xfu128 == 0xeu128 && (g >> 45u128) & 0b11u128 == 0 && (g >> 47u128) & 1u128 == 1
        && (g >> 32u128) & 0b111u128 == 0 && g >> 96u128 == 0) by (bit_vector)
        requires
            o <= 0xffff_ffff_ffff_ffffu128,
            c <= 0xffffu128,
            g == (o & 0xffffu128) | ((o & (0xffffu128 << 16u128)) << 32u128) | ((o & (0xffff_ffffu128 << 32u128))
                << 32u128) | (c << 16u128) | (0xeu128 << 40u128) | (1u128 << 47u128),
    ;
}

} // verus!
