//! The saved context of a task
use vstd::prelude::*;
use crate::arch::interrupt::StackFrame;

verus! {

/// Segment registers
#[derive(Debug, Clone, Copy, Default, PartialEq, Eq, Structural)]
pub struct Segments {
    pub fs: u64,
    pub gs: u64,
}

/// General purpose registers
#[derive(Debug, Clone, Copy, Default, PartialEq, Eq, Structural)]
pub struct GeneralPurpose {
    pub r15: u64,
    pub r14: u64,
    pub r13: u64,
    pub r12: u64,
    pub r11: u64,
    pub r10: u64,
    pub r9: u64,
    pub r8: u64,
    pub rbp: u64,
    pub rdi: u64,
    pub rsi: u64,
    pub rdx: u64,
    pub rcx: u64,
    pub rbx: u64,
    pub rax: u64,
}

/// Saved context of a task
#[derive(Debug, Clone, Copy, Default, PartialEq, Eq, Structural)]
pub struct Context {
    pub segments: Segments,
    pub general: GeneralPurpose,
    pub stack_frame: StackFrame,
}

} // verus!
