//! The execution engine and its parts.

pub mod alu;
pub mod computer;
pub mod flags;
pub mod storage;
