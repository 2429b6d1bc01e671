//! x86_64 specific code: descriptor tables, the task state segment, interrupt frames,
//! model specific registers and control register flags.
pub mod cpu;
pub mod gdt;
pub mod idt;
pub mod tss;
pub mod interrupt;
pub mod msr;
pub mod registers;
