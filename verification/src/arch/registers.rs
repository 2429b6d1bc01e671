//! Flags of the control registers
use vstd::prelude::*;

verus! {

/// Cr4 feature flags
pub struct Cr4Flags;

/// CR4.FSGSBASE enables the instructions that read and write the FS and GS bases
pub const CR4_FSGSBASE: u64 = 0x1_0000;

/// CR4.OSXSAVE enables XSAVE and the extended control registers
pub const CR4_OSXSAVE: u64 = 0x4_0000;

/// XCr0 flags
pub struct XCr0Flags;

/// XCR0 bit for the x87 FPU state
pub const XCR0_X87_FPU: u64 = 1;

/// XCR0 bit for the SSE state
pub const XCR0_SSE_STATE: u64 = 2;

} // verus!
