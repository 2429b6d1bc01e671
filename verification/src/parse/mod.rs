//! Parseable formats
pub mod cpio;
pub mod elf;
