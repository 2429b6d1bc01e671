//! Loading programs
pub mod error;
