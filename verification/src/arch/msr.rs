//! Code for working with Model Specific Registers (MSRs)
//!
//! ref: Intel® 64 and IA-32 Architectures Software Developer’s Manual Volume 4: Model-Specific Registers
use vstd::prelude::*;

verus! {

/// A Model Specific Register
#[allow(non_camel_case_types)]
#[derive(Debug, Clone, Copy, PartialEq, Eq, Structural)]
pub enum ModelSpecificRegister {
    IA32_EFER,
    IA32_STAR,
    IA32_LSTAR,
    IA32_FMASK,
}

impl ModelSpecificRegister {
    /// The address of the register, as RDMSR and WRMSR take it in ECX
    pub open spec fn address_spec(self) -> u32 {
        match self {
            ModelSpecificRegister::IA32_EFER => 0xc000_0080,
            ModelSpecificRegister::IA32_STAR => 0xc000_0081,
            ModelSpecificRegister::IA32_LSTAR => 0xc000_0082,
            ModelSpecificRegister::IA32_FMASK => 0xc000_0084,
        }
    }

    /// The address of the register, as RDMSR and WRMSR take it in ECX
    pub fn address(&self) -> (address: u32)
        ensures
            address == self.address_spec(),
    {
        match self {
            ModelSpecificRegister::IA32_EFER => 0xc000_0080,
            ModelSpecificRegister::IA32_STAR => 0xc000_0081,
            ModelSpecificRegister::IA32_LSTAR => 0xc000_0082,
            ModelSpecificRegister::IA32_FMASK => 0xc000_0084,
        }
    }
}

/// The registers are the architectural MSRs of the syscall extensions (Intel SDM vol. 4): the
/// extended feature enable register IA32_EFER at 0xC000_0080, and after it IA32_STAR (the
/// syscall and sysret selectors) at the next address, IA32_LSTAR (the 64-bit syscall entry) at
/// the one after, and IA32_FMASK (the RFLAGS mask) three further on, past IA32_CSTAR; no two
/// registers share an address.
pub proof fn lemma_msr_addresses(a: ModelSpecificRegister, b: ModelSpecificRegister)
    ensures
        ModelSpecificRegister::IA32_EFER.address_spec() == 0xc000_0080u32,
        ModelSpecificRegister::IA32_STAR.address_spec() == ModelSpecificRegister::IA32_EFER.address_spec() + 1,
        ModelSpecificRegister::IA32_LSTAR.address_spec() == ModelSpecificRegister::IA32_EFER.address_spec() + 2,
        ModelSpecificRegister::IA32_FMASK.address_spec() == ModelSpecificRegister::IA32_EFER.address_spec() + 4,
        a.address_spec() == b.address_spec() ==> a == b,
{
}

/// Split a 64-bit value into the halves that WRMSR and XSETBV take: the high half (EDX) and
/// the low half (EAX)
pub fn split_halves(value: u64) -> (halves: (u32, u32))
    ensures
        halves.0 == value >> 32u64,
        halves.1 == value & 0xffff_ffffu64,
        halves.0 * 0x1_0000_0000 + halves.1 == value,
{
    let high = (value >> 32) as u32;
    let low = (value & 0xffff_ffff) as u32;
    assert((value >> 32u64) <= 0xffff_ffffu64) by (bit_vector);
    assert((value & 0xffff_ffffu64) <= 0xffff_ffffu64) by (bit_vector);
    assert((value >> 32u64) * 0x1_0000_0000u64 + (value & 0xffff_ffffu64) == value) by (bit_vector);
    (high, low)
}

/// Join the halves that RDMSR gives (EDX high, EAX low) into the register's value
pub fn join_halves(high: u32, low: u32) -> (value: u64)
    ensures
        value == high * 0x1_0000_0000 + low,
{
    let value = ((high as u64) << 32) | (low as u64);
    let h = high as u64;
    let l = low as u64;
    assert(((h << 32u64) | l) == h * 0x1_0000_0000u64 + l) by (bit_vector)
        requires
            h <= 0xffff_ffffu64,
            l <= 0xffff_ffffu64,
    ;
    value
}

/// Joining the halves that a value splits into gives the value back.
pub proof fn lemma_split_join(value: u64, high: u32, low: u32)
    requires
        high * 0x1_0000_0000 + low == value,
    ensures
        (value >> 32u64) == high,
        (value & 0xffff_ffffu64) == low,
{
    let h = high as u64;
    let l = low as u64;
    assert((value >> 32u64) == h && (value & 0xffff_ffffu64) == l) by (bit_vector)
        requires
            h <= 0xffff_ffffu64,
            l <= 0xffff_ffffu64,
            h * 0x1_0000_0000u64 + l == value,
    ;
}

} // verus!
