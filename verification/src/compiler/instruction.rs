//! Instructions and the one constructor that assembling and disassembling
//! share.

use vstd::prelude::*;
use std::collections::VecDeque;
use crate::compiler::compiler::CompileError;
use crate::compiler::token::Token;
use crate::types::{InstructionType, Opcode, Register};

verus! {

/// An operation together with its operands.
#[derive(Clone, Copy, Debug, PartialEq, Eq, Structural)]
pub enum Instruction {
    NoParam(Opcode),
    RegImm(Opcode, Register, u8),
    DoubleReg(Opcode, Register, Register),
    DoubleRegImm4(Opcode, Register, Register, u8),
    TripleReg(Opcode, Register, Register, Register),
}

/// The operand pattern of each operation.
pub open spec fn shape_of(opcode: Opcode) -> InstructionType {
    match opcode {
        Opcode::HLT => InstructionType::NoParam,
        Opcode::LDI => InstructionType::RegImm,
        Opcode::ADD => InstructionType::TripleReg,
        Opcode::SB => InstructionType::TripleReg,
        Opcode::LB => InstructionType::TripleReg,
        Opcode::JNZ => InstructionType::DoubleReg,
        Opcode::JAL => InstructionType::TripleReg,
        Opcode::XOR => InstructionType::TripleReg,
        Opcode::SUB => InstructionType::TripleReg,
        Opcode::SHL => InstructionType::DoubleRegImm4,
        Opcode::SHR => InstructionType::DoubleRegImm4,
        Opcode::JC => InstructionType::DoubleReg,
        Opcode::NOT => InstructionType::DoubleReg,
        Opcode::AND => InstructionType::TripleReg,
        Opcode::OR => InstructionType::TripleReg,
    }
}

/// The number of bytes an instruction of the operation takes: one without
/// operands, two with.
pub open spec fn length_of(opcode: Opcode) -> u16 {
    if shape_of(opcode) == InstructionType::NoParam {
        1
    } else {
        2
    }
}

/// The register that stands at place `at` of `tokens`; a token of another
/// kind there is refused, and so is the end of the tokens.
pub open spec fn register_at(tokens: Seq<Token>, at: int) -> Result<Register, CompileError> {
    if at >= tokens.len() {
        Err(CompileError::UnexpectedEOF)
    } else {
        match tokens[at] {
            Token::Register(register) => Ok(register),
            token => Err(CompileError::UnexpectedTokenType(token)),
        }
    }
}

/// The immediate that stands at place `at` of `tokens`; a token of another
/// kind there is refused, and so is the end of the tokens.
pub open spec fn immediate_at(tokens: Seq<Token>, at: int) -> Result<u8, CompileError> {
    if at >= tokens.len() {
        Err(CompileError::UnexpectedEOF)
    } else {
        match tokens[at] {
            Token::Immediate(value) => Ok(value),
            token => Err(CompileError::UnexpectedTokenType(token)),
        }
    }
}

/// The instruction that `opcode` makes with the operands at the head of
/// `tokens`, taken in order, or the first fault met on the way.
pub open spec fn generated(opcode: Opcode, tokens: Seq<Token>) -> Result<
    Instruction,
    CompileError,
> {
    match shape_of(opcode) {
        InstructionType::NoParam => Ok(Instruction::NoParam(opcode)),
        InstructionType::RegImm => match register_at(tokens, 0) {
            Err(fault) => Err(fault),
            Ok(reg) => match immediate_at(tokens, 1) {
                Err(fault) => Err(fault),
                Ok(imm) => Ok(Instruction::RegImm(opcode, reg, imm)),
            },
        },
        InstructionType::DoubleReg => match register_at(tokens, 0) {
            Err(fault) => Err(fault),
            Ok(reg) => match register_at(tokens, 1) {
                Err(fault) => Err(fault),
                Ok(reg2) => Ok(Instruction::DoubleReg(opcode, reg, reg2)),
            },
        },
        InstructionType::DoubleRegImm4 => match register_at(tokens, 0) {
            Err(fault) => Err(fault),
            Ok(reg) => match register_at(tokens, 1) {
                Err(fault) => Err(fault),
                Ok(reg2) => match immediate_at(tokens, 2) {
                    Err(fault) => Err(fault),
                    Ok(imm4) => Ok(Instruction::DoubleRegImm4(opcode, reg, reg2, imm4)),
                },
            },
        },
        InstructionType::TripleReg => match register_at(tokens, 0) {
            Err(fault) => Err(fault),
            Ok(reg) => match register_at(tokens, 1) {
                Err(fault) => Err(fault),
                Ok(reg2) => match register_at(tokens, 2) {
                    Err(fault) => Err(fault),
                    Ok(reg3) => Ok(Instruction::TripleReg(opcode, reg, reg2, reg3)),
                },
            },
        },
    }
}

/// The number of operands an operation of the given pattern takes.
pub open spec fn operand_count(shape: InstructionType) -> nat {
    match shape {
        InstructionType::NoParam => 0,
        InstructionType::RegImm => 2,
        InstructionType::DoubleReg => 2,
        InstructionType::DoubleRegImm4 => 3,
        InstructionType::TripleReg => 3,
    }
}

/// Whether the token at place `at` is of the kind that the pattern asks for
/// there: an immediate at the last place of the two patterns that end in
/// one, a register everywhere else.
pub open spec fn fits(shape: InstructionType, at: int, token: Token) -> bool {
    let wants_immediate = (shape == InstructionType::RegImm && at == 1) || (shape
        == InstructionType::DoubleRegImm4 && at == 2);
    if wants_immediate {
        token is Immediate
    } else {
        token is Register
    }
}

/// The number of tokens that building an instruction of `opcode` takes from
/// `tokens`: all its operands where they are there and fit, and otherwise
/// every token up to and with the first that does not fit, or all there are.
pub open spec fn pulled(opcode: Opcode, tokens: Seq<Token>) -> nat {
    let shape = shape_of(opcode);
    let count = operand_count(shape);
    if count >= 1 && (tokens.len() < 1 || !fits(shape, 0, tokens[0])) {
        if tokens.len() < 1 {
            0
        } else {
            1
        }
    } else if count >= 2 && (tokens.len() < 2 || !fits(shape, 1, tokens[1])) {
        if tokens.len() < 2 {
            1
        } else {
            2
        }
    } else if count >= 3 && (tokens.len() < 3 || !fits(shape, 2, tokens[2])) {
        if tokens.len() < 3 {
            2
        } else {
            3
        }
    } else {
        count
    }
}

/// The bytes of each instruction: the operation in the high half of the first
/// byte, the first register in its low half, and the remaining operands in the
/// second byte, which an instruction without operands does not have.
pub open spec fn serialized(instruction: Instruction) -> Seq<u8> {
    match instruction {
        Instruction::NoParam(opcode) => seq![opcode.spec_code() << 4],
        Instruction::RegImm(opcode, reg, imm) => seq![
            (opcode.spec_code() << 4) | reg.spec_code(),
            imm,
        ],
        Instruction::DoubleReg(opcode, reg, reg2) => seq![
            (opcode.spec_code() << 4) | reg.spec_code(),
            reg2.spec_code() << 4,
        ],
        Instruction::DoubleRegImm4(opcode, reg, reg2, imm4) => seq![
            (opcode.spec_code() << 4) | reg.spec_code(),
            (reg2.spec_code() << 4) | imm4,
        ],
        Instruction::TripleReg(opcode, reg, reg2, reg3) => seq![
            (opcode.spec_code() << 4) | reg.spec_code(),
            (reg2.spec_code() << 4) | reg3.spec_code(),
        ],
    }
}

/// The instruction that two bytes encode. The high half of the first byte
/// must name an operation, and each half byte that the operation's pattern
/// reads as a register must name one; any other pair of bytes is refused with
/// `UnexpectedEOF`.
pub open spec fn disassembled(first_byte: u8, second_byte: u8) -> Result<
    Instruction,
    CompileError,
> {
    let reg = Register::of_code(first_byte & 15);
    let reg2 = Register::of_code(second_byte >> 4);
    let reg3 = Register::of_code(second_byte & 15);
    match Opcode::of_code(first_byte >> 4) {
        Err(_) => Err(CompileError::UnexpectedEOF),
        Ok(opcode) => match shape_of(opcode) {
            InstructionType::NoParam => Ok(Instruction::NoParam(opcode)),
            InstructionType::RegImm => if reg is Ok {
                Ok(Instruction::RegImm(opcode, reg->Ok_0, second_byte))
            } else {
                Err(CompileError::UnexpectedEOF)
            },
            InstructionType::DoubleReg => if reg is Ok && reg2 is Ok {
                Ok(Instruction::DoubleReg(opcode, reg->Ok_0, reg2->Ok_0))
            } else {
                Err(CompileError::UnexpectedEOF)
            },
            InstructionType::DoubleRegImm4 => if reg is Ok && reg2 is Ok {
                Ok(Instruction::DoubleRegImm4(opcode, reg->Ok_0, reg2->Ok_0, second_byte & 15))
            } else {
                Err(CompileError::UnexpectedEOF)
            },
            InstructionType::TripleReg => if reg is Ok && reg2 is Ok && reg3 is Ok {
                Ok(Instruction::TripleReg(opcode, reg->Ok_0, reg2->Ok_0, reg3->Ok_0))
            } else {
                Err(CompileError::UnexpectedEOF)
            },
        },
    }
}

/// The token of the register that `raw` names, if it names one.
pub open spec fn register_token(raw: u8) -> Option<Token> {
    match Register::of_code(raw) {
        Ok(register) => Some(Token::Register(register)),
        Err(_) => None,
    }
}

/// `first` and then `rest`; where `first` is missing, nothing at all.
pub open spec fn followed(first: Option<Token>, rest: Seq<Token>) -> Seq<Token> {
    match first {
        Some(token) => seq![token] + rest,
        None => Seq::empty(),
    }
}

/// The operand tokens that two bytes hold for an operation of the given
/// pattern, in the pattern's order. The tokens end before the first half byte
/// that should name a register and names none.
pub open spec fn operand_tokens(shape: InstructionType, first_byte: u8, second_byte: u8) -> Seq<
    Token,
> {
    let reg = register_token(first_byte & 15);
    let reg2 = register_token(second_byte >> 4);
    let reg3 = register_token(second_byte & 15);
    match shape {
        InstructionType::NoParam => Seq::empty(),
        InstructionType::RegImm => followed(reg, seq![Token::Immediate(second_byte)]),
        InstructionType::DoubleReg => followed(reg, followed(reg2, Seq::empty())),
        InstructionType::DoubleRegImm4 => followed(
            reg,
            followed(reg2, seq![Token::Immediate(second_byte & 15)]),
        ),
        InstructionType::TripleReg => followed(reg, followed(reg2, followed(reg3, Seq::empty()))),
    }
}

/// A supply of operands: it hands out its tokens one by one, in order, and
/// reports the end when none is left.
pub trait OperandSource {
    /// The tokens not handed out yet.
    spec fn pending(&self) -> Seq<Token>;

    /// Hands out the next token, or reports `UnexpectedEOF`.
    fn pull(&mut self) -> (result: Result<Token, CompileError>)
        ensures
            old(self).pending().len() == 0 ==> result == Err::<Token, CompileError>(
                CompileError::UnexpectedEOF,
            ) && final(self).pending() == old(self).pending(),
            old(self).pending().len() > 0 ==> result == Ok::<Token, CompileError>(
                old(self).pending()[0],
            ) && final(self).pending() == old(self).pending().skip(1),
    ;
}

fn pull_register<S: OperandSource>(source: &mut S) -> (result: Result<Register, CompileError>)
    ensures
        result == register_at(old(source).pending(), 0),
        old(source).pending().len() == 0 ==> final(source).pending() == old(source).pending(),
        old(source).pending().len() > 0 ==> final(source).pending() == old(source).pending().skip(
            1,
        ),
{
    match source.pull() {
        Err(fault) => Err(fault),
        Ok(Token::Register(register)) => Ok(register),
        Ok(token) => Err(CompileError::UnexpectedTokenType(token)),
    }
}

fn pull_immediate<S: OperandSource>(source: &mut S) -> (result: Result<u8, CompileError>)
    ensures
        result == immediate_at(old(source).pending(), 0),
        old(source).pending().len() == 0 ==> final(source).pending() == old(source).pending(),
        old(source).pending().len() > 0 ==> final(source).pending() == old(source).pending().skip(
            1,
        ),
{
    match source.pull() {
        Err(fault) => Err(fault),
        Ok(Token::Immediate(value)) => Ok(value),
        Ok(token) => Err(CompileError::UnexpectedTokenType(token)),
    }
}


impl OperandSource for VecDeque<Token> {
    open spec fn pending(&self) -> Seq<Token> {
        self@
    }

    fn pull(&mut self) -> (result: Result<Token, CompileError>) {
        match self.pop_front() {
            Some(token) => {
                Ok(token)
            },
            None => Err(CompileError::UnexpectedEOF),
        }
    }
}

/// Appends the token of the register that `raw` names, if it names one.
fn push_register(tokens: &mut Vec<Token>, raw: u8) -> (pushed: bool)
    ensures
        pushed == (register_token(raw) is Some),
        pushed ==> final(tokens)@ == old(tokens)@.push(register_token(raw)->Some_0),
        !pushed ==> final(tokens)@ == old(tokens)@,
{
    match Register::try_from(raw) {
        Ok(register) => {
            tokens.push(Token::Register(register));
            true
        },
        Err(_) => false,
    }
}

/// The operands that the two bytes of an encoded instruction hold.
pub struct DecodedOperands {
    tokens: Vec<Token>,
    next: usize,
}

impl DecodedOperands {
    /// Whether the place of the next token lies within the tokens.
    #[verifier::type_invariant]
    closed spec fn well_formed(&self) -> bool {
        self.next <= self.tokens@.len()
    }

    /// Reads the operands of an operation of pattern `shape` out of two bytes.
    pub fn new(shape: InstructionType, first_byte: u8, second_byte: u8) -> (operands: Self)
        ensures
            operands.pending() == operand_tokens(shape, first_byte, second_byte),
    {
        let mut tokens: Vec<Token> = Vec::new();
        match shape {
            InstructionType::NoParam => {},
            InstructionType::RegImm => {
                if push_register(&mut tokens, first_byte & 15) {
                    tokens.push(Token::Immediate(second_byte));
                }
            },
            InstructionType::DoubleReg => {
                if push_register(&mut tokens, first_byte & 15) {
                    let _ = push_register(&mut tokens, second_byte >> 4);
                }
            },
            InstructionType::DoubleRegImm4 => {
                if push_register(&mut tokens, first_byte & 15) {
                    if push_register(&mut tokens, second_byte >> 4) {
                        tokens.push(Token::Immediate(second_byte & 15));
                    }
                }
            },
            InstructionType::TripleReg => {
                if push_register(&mut tokens, first_byte & 15) {
                    if push_register(&mut tokens, second_byte >> 4) {
                        let _ = push_register(&mut tokens, second_byte & 15);
                    }
                }
            },
        }
        DecodedOperands { tokens, next: 0 }
    }
}

impl OperandSource for DecodedOperands {
    closed spec fn pending(&self) -> Seq<Token> {
        self.tokens@.skip(self.next as int)
    }

    fn pull(&mut self) -> (result: Result<Token, CompileError>) {
        proof {
            use_type_invariant(&*self);
        }
        if self.next < self.tokens.len() {
            let token = self.tokens[self.next];
            self.next = self.next + 1;
            Ok(token)
        } else {
            Err(CompileError::UnexpectedEOF)
        }
    }
}

/// Splitting a byte made of two half bytes gives the two halves back.
pub proof fn halves_of_joined(high: u8, low: u8)
    by (bit_vector)
    requires
        high < 16,
        low < 16,
    ensures
        ((high << 4) | low) >> 4 == high,
        ((high << 4) | low) & 15 == low,
        (high << 4) >> 4 == high,
        (high << 4) & 15 == 0,
{
}

impl Instruction {
    /// The operand pattern of `opcode`.
    pub fn get_type(opcode: Opcode) -> (shape: InstructionType)
        ensures
            shape == shape_of(opcode),
    {
        match opcode {
            Opcode::HLT => InstructionType::NoParam,
            Opcode::LDI => InstructionType::RegImm,
            Opcode::ADD => InstructionType::TripleReg,
            Opcode::SB => InstructionType::TripleReg,
            Opcode::LB => InstructionType::TripleReg,
            Opcode::JNZ => InstructionType::DoubleReg,
            Opcode::JAL => InstructionType::TripleReg,
            Opcode::XOR => InstructionType::TripleReg,
            Opcode::SUB => InstructionType::TripleReg,
            Opcode::SHL => InstructionType::DoubleRegImm4,
            Opcode::SHR => InstructionType::DoubleRegImm4,
            Opcode::JC => InstructionType::DoubleReg,
            Opcode::NOT => InstructionType::DoubleReg,
            Opcode::AND => InstructionType::TripleReg,
            Opcode::OR => InstructionType::TripleReg,
        }
    }

    /// The number of bytes an instruction of `opcode` takes.
    pub fn get_length(opcode: Opcode) -> (length: u16)
        ensures
            length == length_of(opcode),
            length == 1 || length == 2,
    {
        match Self::get_type(opcode) {
            InstructionType::NoParam => 1,
            InstructionType::RegImm => 2,
            InstructionType::DoubleReg => 2,
            InstructionType::DoubleRegImm4 => 2,
            InstructionType::TripleReg => 2,
        }
    }

    /// Builds the instruction of `opcode` from the operands that `source`
    /// hands out, in the order of the pattern. It pulls no more tokens than
    /// the pattern has operands and stops at the first fault.
    pub fn generate<S: OperandSource>(opcode: Opcode, source: &mut S) -> (result: Result<
        Self,
        CompileError,
    >)
        ensures
            result == generated(opcode, old(source).pending()),
            final(source).pending() == old(source).pending().skip(
                pulled(opcode, old(source).pending()) as int,
            ),
    {
        match Instruction::get_type(opcode) {
            InstructionType::NoParam => Ok(Instruction::NoParam(opcode)),
            InstructionType::RegImm => {
                let reg = match pull_register(source) {
                    Ok(reg) => reg,
                    Err(fault) => return Err(fault),
                };
                let imm = match pull_immediate(source) {
                    Ok(imm) => imm,
                    Err(fault) => return Err(fault),
                };
                Ok(Instruction::RegImm(opcode, reg, imm))
            },
            InstructionType::DoubleReg => {
                let reg = match pull_register(source) {
                    Ok(reg) => reg,
                    Err(fault) => return Err(fault),
                };
                let reg2 = match pull_register(source) {
                    Ok(reg) => reg,
                    Err(fault) => return Err(fault),
                };
                Ok(Instruction::DoubleReg(opcode, reg, reg2))
            },
            InstructionType::DoubleRegImm4 => {
                let reg = match pull_register(source) {
                    Ok(reg) => reg,
                    Err(fault) => return Err(fault),
                };
                let reg2 = match pull_register(source) {
                    Ok(reg) => reg,
                    Err(fault) => return Err(fault),
                };
                let imm4 = match pull_immediate(source) {
                    Ok(imm) => imm,
                    Err(fault) => return Err(fault),
                };
                Ok(Instruction::DoubleRegImm4(opcode, reg, reg2, imm4))
            },
            InstructionType::TripleReg => {
                let reg = match pull_register(source) {
                    Ok(reg) => reg,
                    Err(fault) => return Err(fault),
                };
                let reg2 = match pull_register(source) {
                    Ok(reg) => reg,
                    Err(fault) => return Err(fault),
                };
                let reg3 = match pull_register(source) {
                    Ok(reg) => reg,
                    Err(fault) => return Err(fault),
                };
                Ok(Instruction::TripleReg(opcode, reg, reg2, reg3))
            },
        }
    }

    /// Whether the instruction has the operand pattern of its operation.
    pub open spec fn has_own_shape(self) -> bool {
        shape_of(self.spec_opcode()) == match self {
            Instruction::NoParam(_) => InstructionType::NoParam,
            Instruction::RegImm(_, _, _) => InstructionType::RegImm,
            Instruction::DoubleReg(_, _, _) => InstructionType::DoubleReg,
            Instruction::DoubleRegImm4(_, _, _, _) => InstructionType::DoubleRegImm4,
            Instruction::TripleReg(_, _, _, _) => InstructionType::TripleReg,
        }
    }

    /// Whether the instruction has the operand pattern of its operation and,
    /// where it carries a four-bit immediate, one below sixteen.
    pub open spec fn well_formed(self) -> bool {
        &&& self.has_own_shape()
        &&& self matches Instruction::DoubleRegImm4(_, _, _, imm4) ==> imm4 < 16
    }

    /// The operation of the instruction.
    pub open spec fn spec_opcode(self) -> Opcode {
        match self {
            Instruction::NoParam(opcode) => opcode,
            Instruction::RegImm(opcode, _, _) => opcode,
            Instruction::DoubleReg(opcode, _, _) => opcode,
            Instruction::DoubleRegImm4(opcode, _, _, _) => opcode,
            Instruction::TripleReg(opcode, _, _, _) => opcode,
        }
    }

    /// The operation of the instruction.
    #[verifier::when_used_as_spec(spec_opcode)]
    pub fn opcode(self) -> (opcode: Opcode)
        ensures
            opcode == self.spec_opcode(),
    {
        match self {
            Instruction::NoParam(opcode) => opcode,
            Instruction::RegImm(opcode, _, _) => opcode,
            Instruction::DoubleReg(opcode, _, _) => opcode,
            Instruction::DoubleRegImm4(opcode, _, _, _) => opcode,
            Instruction::TripleReg(opcode, _, _, _) => opcode,
        }
    }

    /// The bytes of the instruction: one where it has no operands, two
    /// otherwise.
    pub fn serialize(&self) -> (bytes: Vec<u8>)
        ensures
            bytes@ == serialized(*self),
    {
        let mut bytes: Vec<u8> = Vec::new();
        match *self {
            Instruction::NoParam(opcode) => {
                bytes.push(opcode.code() << 4);
            },
            Instruction::RegImm(opcode, reg, imm) => {
                bytes.push((opcode.code() << 4) | reg.code());
                bytes.push(imm);
            },
            Instruction::DoubleReg(opcode, reg, reg2) => {
                bytes.push((opcode.code() << 4) | reg.code());
                bytes.push(reg2.code() << 4);
            },
            Instruction::DoubleRegImm4(opcode, reg, reg2, imm4) => {
                bytes.push((opcode.code() << 4) | reg.code());
                bytes.push((reg2.code() << 4) | imm4);
            },
            Instruction::TripleReg(opcode, reg, reg2, reg3) => {
                bytes.push((opcode.code() << 4) | reg.code());
                bytes.push((reg2.code() << 4) | reg3.code());
            },
        }
        bytes
    }

    /// Decodes the instruction that starts with `first_byte`, its operands
    /// read from `first_byte` and `second_byte` and built by `generate`.
    pub fn disassemble(first_byte: u8, second_byte: u8) -> (result: Result<
        Instruction,
        CompileError,
    >)
        ensures
            result == disassembled(first_byte, second_byte),
    {
        let opcode = match Opcode::try_from(first_byte >> 4) {
            Ok(opcode) => opcode,
            Err(_) => return Err(CompileError::UnexpectedEOF),
        };
        let mut operands = DecodedOperands::new(
            Instruction::get_type(opcode),
            first_byte,
            second_byte,
        );
        proof {
            Self::generated_from_bytes(opcode, first_byte, second_byte);
        }
        Instruction::generate(opcode, &mut operands)
    }

    /// Building from the operand tokens of two bytes gives the instruction
    /// that the bytes encode.
    pub proof fn generated_from_bytes(opcode: Opcode, first_byte: u8, second_byte: u8)
        requires
            Opcode::of_code(first_byte >> 4) == Ok::<Opcode, crate::types::OpcodeConversionError>(
                opcode,
            ),
        ensures
            generated(opcode, operand_tokens(shape_of(opcode), first_byte, second_byte))
                == disassembled(first_byte, second_byte),
    {
    }

    /// What `generate` builds has the given operation and the operand
    /// pattern of that operation.
    pub proof fn generated_has_shape(opcode: Opcode, tokens: Seq<Token>)
        ensures
            generated(opcode, tokens) matches Ok(instruction) ==> instruction.spec_opcode()
                == opcode && instruction.has_own_shape(),
    {
    }

    /// What decoding two bytes gives is well formed.
    pub proof fn disassembled_is_well_formed(first_byte: u8, second_byte: u8)
        ensures
            disassembled(first_byte, second_byte) matches Ok(instruction)
                ==> instruction.well_formed(),
    {
        assert(second_byte & 15 < 16) by (bit_vector);
    }

    /// Round trip: the bytes of a well-formed instruction decode to that
    /// instruction again. An instruction of one byte is found whatever byte
    /// follows it.
    pub proof fn round_trip(instruction: Instruction, following: u8)
        requires
            instruction.well_formed(),
        ensures
            serialized(instruction).len() == length_of(instruction.spec_opcode()),
            serialized(instruction).len() == 2 ==> disassembled(
                serialized(instruction)[0],
                serialized(instruction)[1],
            ) == Ok::<Instruction, CompileError>(instruction),
            serialized(instruction).len() == 1 ==> disassembled(
                serialized(instruction)[0],
                following,
            ) == Ok::<Instruction, CompileError>(instruction),
    {
        let opcode = instruction.spec_opcode();
        opcode.code_round_trip();
        match instruction {
            Instruction::NoParam(_) => {
                halves_of_joined(opcode.spec_code(), 0);
            },
            Instruction::RegImm(_, reg, imm) => {
                reg.code_round_trip();
                halves_of_joined(opcode.spec_code(), reg.spec_code());
            },
            Instruction::DoubleReg(_, reg, reg2) => {
                reg.code_round_trip();
                reg2.code_round_trip();
                halves_of_joined(opcode.spec_code(), reg.spec_code());
                halves_of_joined(reg2.spec_code(), 0);
            },
            Instruction::DoubleRegImm4(_, reg, reg2, imm4) => {
                reg.code_round_trip();
                reg2.code_round_trip();
                halves_of_joined(opcode.spec_code(), reg.spec_code());
                halves_of_joined(reg2.spec_code(), imm4);
            },
            Instruction::TripleReg(_, reg, reg2, reg3) => {
                reg.code_round_trip();
                reg2.code_round_trip();
                reg3.code_round_trip();
                halves_of_joined(opcode.spec_code(), reg.spec_code());
                halves_of_joined(reg2.spec_code(), reg3.spec_code());
            },
        }
    }

    /// Round trip from the tokens: what `generate` builds from an operation
    /// and tokens, with a four-bit immediate below sixteen, is found again by
    /// decoding its bytes.
    pub proof fn generate_round_trip(opcode: Opcode, tokens: Seq<Token>, following: u8)
        requires
            generated(opcode, tokens) is Ok,
            generated(opcode, tokens)->Ok_0 matches Instruction::DoubleRegImm4(_, _, _, imm4)
                ==> imm4 < 16,
        ensures
            ({
                let instruction = generated(opcode, tokens)->Ok_0;
                let bytes = serialized(instruction);
                &&& instruction.spec_opcode() == opcode
                &&& bytes.len() == length_of(opcode)
                &&& disassembled(bytes[0], if bytes.len() == 2 { bytes[1] } else { following })
                    == Ok::<Instruction, CompileError>(instruction)
            }),
    {
        let instruction = generated(opcode, tokens)->Ok_0;
        Self::generated_has_shape(opcode, tokens);
        Self::round_trip(instruction, following);
    }
}

} // verus!
