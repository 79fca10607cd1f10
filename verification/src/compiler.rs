//! Instructions, their encoding in bytes, and the assembler that builds them
//! from text.

pub mod compiler;
pub mod instruction;
pub mod token;
