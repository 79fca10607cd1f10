//! The values an instruction is built from.

use vstd::prelude::*;
use crate::types::{Opcode, Register};

verus! {

/// A classified unit of assembly input.
#[derive(Clone, Copy, Debug, PartialEq, Eq, Structural)]
pub enum Token {
    Opcode(Opcode),
    Register(Register),
    Immediate(u8),
}

} // verus!
