//! An 8-bit virtual CPU: its instruction set, an assembler and disassembler
//! for it, and a steppable execution engine.

pub mod assembler;
pub mod compiler;
pub mod machine;
pub mod types;
