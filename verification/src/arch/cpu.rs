//! Decisions about processor features, made from the values that CPUID and the MSRs report
use vstd::prelude::*;

verus! {

/// CPUID.(EAX=07H,ECX=0):EBX bit 0 reports FSGSBASE.
pub const FSGSBASE_BIT: u32 = 1;

/// CPUID.(EAX=01H,ECX=0):ECX bit 26 reports XSAVE.
pub const XSAVE_BIT: u32 = 0x400_0000;

/// Whether the processor supports FSGSBASE, from the EBX of CPUID leaf 7
pub fn supports_fsgsbase(leaf7_ebx: u32) -> (supported: bool)
    ensures
        supported == (leaf7_ebx & FSGSBASE_BIT == 1),
{
    leaf7_ebx & FSGSBASE_BIT == 1
}

/// Whether the processor supports XSAVE, from the ECX of CPUID leaf 1
pub fn supports_xsave(leaf1_ecx: u32) -> (supported: bool)
    ensures
        supported == (leaf1_ecx & XSAVE_BIT != 0),
{
    leaf1_ecx & XSAVE_BIT != 0
}

/// The kernel needs both FSGSBASE and XSAVE.
pub open spec fn supports_required_spec(leaf7_ebx: u32, leaf1_ecx: u32) -> bool {
    leaf7_ebx & FSGSBASE_BIT == 1 && leaf1_ecx & XSAVE_BIT != 0
}

/// Whether the processor supports FSGSBASE and XSAVE, from the EBX of CPUID leaf 7 and the
/// ECX of CPUID leaf 1
pub fn supports_required_features(leaf7_ebx: u32, leaf1_ecx: u32) -> (supported: bool)
    ensures
        supported == supports_required_spec(leaf7_ebx, leaf1_ecx),
{
    supports_fsgsbase(leaf7_ebx) && supports_xsave(leaf1_ecx)
}

/// The physical address width (MAXPHYADDR), from the EAX of CPUID leaf 0x80000008: its low byte
pub fn physical_address_width(leaf_eax: u32) -> (width: u32)
    ensures
        width == leaf_eax & 0xff,
        width < 256,
{
    assert(leaf_eax & 0xffu32 < 256u32) by (bit_vector);
    leaf_eax & 0xff
}

/// The value of IA32_STAR for syscall and sysret: the kernel code selector 0x08 in bits 32..48
/// and the user selector base 0x18 in bits 48..64
pub fn syscall_star() -> (star: u64)
    ensures
        star == 0x18 * 0x1_0000_0000_0000 + 0x08 * 0x1_0000_0000,
{
    let star: u64 = (0x18u64 << 48u64) | (0x08u64 << 32u64);
    assert((0x18u64 << 48u64) | (0x08u64 << 32u64) == 0x0018_0008_0000_0000u64) by (bit_vector);
    star
}

/// The value of IA32_EFER with the syscall extensions (SCE, bit 0) enabled
pub fn enable_syscall_extensions(efer: u64) -> (updated: u64)
    ensures
        updated == efer | 1,
        updated & 1 == 1,
        updated & !1u64 == efer & !1u64,
{
    assert((efer | 1u64) & 1u64 == 1u64) by (bit_vector);
    assert((efer | 1u64) & !1u64 == efer & !1u64) by (bit_vector);
    efer | 1
}

} // verus!
