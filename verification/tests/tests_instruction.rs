use std::collections::VecDeque;

use mrt_cpu::compiler::compiler::CompileError;
use mrt_cpu::compiler::instruction::{DecodedOperands, Instruction, OperandSource};
use mrt_cpu::compiler::token::Token;
use mrt_cpu::types::{InstructionType, Opcode, Register};

const OPCODES: [Opcode; 15] = [
    Opcode::HLT,
    Opcode::LDI,
    Opcode::ADD,
    Opcode::SB,
    Opcode::LB,
    Opcode::JNZ,
    Opcode::JAL,
    Opcode::XOR,
    Opcode::SUB,
    Opcode::SHL,
    Opcode::SHR,
    Opcode::JC,
    Opcode::NOT,
    Opcode::AND,
    Opcode::OR,
];

const REGISTERS: [Register; 15] = [
    Register::R0,
    Register::R1,
    Register::R2,
    Register::R3,
    Register::R4,
    Register::R5,
    Register::R6,
    Register::R7,
    Register::R8,
    Register::R9,
    Register::R10,
    Register::R12,
    Register::R13,
    Register::R14,
    Register::R15,
];

fn queue(tokens: &[Token]) -> VecDeque<Token> {
    tokens.iter().copied().collect()
}

#[test]
fn shapes_and_lengths() {
    let expected = [
        InstructionType::NoParam,
        InstructionType::RegImm,
        InstructionType::TripleReg,
        InstructionType::TripleReg,
        InstructionType::TripleReg,
        InstructionType::DoubleReg,
        InstructionType::TripleReg,
        InstructionType::TripleReg,
        InstructionType::TripleReg,
        InstructionType::DoubleRegImm4,
        InstructionType::DoubleRegImm4,
        InstructionType::DoubleReg,
        InstructionType::DoubleReg,
        InstructionType::TripleReg,
        InstructionType::TripleReg,
    ];
    for (opcode, shape) in OPCODES.iter().zip(expected.iter()) {
        assert_eq!(Instruction::get_type(*opcode), *shape);
        let length = if *shape == InstructionType::NoParam { 1 } else { 2 };
        assert_eq!(Instruction::get_length(*opcode), length);
    }
}

#[test]
fn serialize_each_shape() {
    assert_eq!(Instruction::NoParam(Opcode::HLT).serialize(), vec![0x00]);
    assert_eq!(
        Instruction::RegImm(Opcode::LDI, Register::R0, 10).serialize(),
        vec![0x10, 0x0A]
    );
    assert_eq!(
        Instruction::DoubleReg(Opcode::NOT, Register::R12, Register::R10).serialize(),
        vec![0xCC, 0xA0]
    );
    assert_eq!(
        Instruction::DoubleRegImm4(Opcode::SHL, Register::R1, Register::R2, 3).serialize(),
        vec![0x91, 0x23]
    );
    assert_eq!(
        Instruction::TripleReg(Opcode::OR, Register::R15, Register::R14, Register::R13).serialize(),
        vec![0xEF, 0xED]
    );
}

#[test]
fn serialize_joins_a_wide_immediate_bit_by_bit() {
    assert_eq!(
        Instruction::DoubleRegImm4(Opcode::SHR, Register::R1, Register::R2, 0x35).serialize(),
        vec![0xA1, 0x35]
    );
}

#[test]
fn generate_takes_operands_in_order() {
    let mut tokens = queue(&[
        Token::Register(Register::R1),
        Token::Register(Register::R2),
        Token::Register(Register::R3),
        Token::Opcode(Opcode::HLT),
    ]);
    assert_eq!(
        Instruction::generate(Opcode::ADD, &mut tokens),
        Ok(Instruction::TripleReg(Opcode::ADD, Register::R1, Register::R2, Register::R3))
    );
    assert_eq!(tokens, queue(&[Token::Opcode(Opcode::HLT)]));

    let mut tokens = queue(&[Token::Register(Register::R4), Token::Immediate(200)]);
    assert_eq!(
        Instruction::generate(Opcode::LDI, &mut tokens),
        Ok(Instruction::RegImm(Opcode::LDI, Register::R4, 200))
    );
    assert!(tokens.is_empty());

    let mut tokens = queue(&[
        Token::Register(Register::R4),
        Token::Register(Register::R5),
        Token::Immediate(7),
    ]);
    assert_eq!(
        Instruction::generate(Opcode::SHL, &mut tokens),
        Ok(Instruction::DoubleRegImm4(Opcode::SHL, Register::R4, Register::R5, 7))
    );

    let mut tokens = queue(&[Token::Register(Register::R4), Token::Register(Register::R5)]);
    assert_eq!(
        Instruction::generate(Opcode::JC, &mut tokens),
        Ok(Instruction::DoubleReg(Opcode::JC, Register::R4, Register::R5))
    );
}

#[test]
fn generate_without_operands_takes_nothing() {
    let mut tokens = queue(&[Token::Immediate(1)]);
    assert_eq!(
        Instruction::generate(Opcode::HLT, &mut tokens),
        Ok(Instruction::NoParam(Opcode::HLT))
    );
    assert_eq!(tokens.len(), 1);
}

#[test]
fn generate_refuses_a_token_of_the_wrong_kind() {
    let mut tokens = queue(&[
        Token::Register(Register::R1),
        Token::Immediate(5),
        Token::Register(Register::R3),
    ]);
    assert_eq!(
        Instruction::generate(Opcode::ADD, &mut tokens),
        Err(CompileError::UnexpectedTokenType(Token::Immediate(5)))
    );
    assert_eq!(tokens, queue(&[Token::Register(Register::R3)]));

    let mut tokens = queue(&[Token::Register(Register::R1), Token::Register(Register::R2)]);
    assert_eq!(
        Instruction::generate(Opcode::LDI, &mut tokens),
        Err(CompileError::UnexpectedTokenType(Token::Register(Register::R2)))
    );

    let mut tokens = queue(&[Token::Opcode(Opcode::ADD)]);
    assert_eq!(
        Instruction::generate(Opcode::NOT, &mut tokens),
        Err(CompileError::UnexpectedTokenType(Token::Opcode(Opcode::ADD)))
    );
}

#[test]
fn generate_reports_the_end_of_the_tokens() {
    let mut tokens = queue(&[Token::Register(Register::R1), Token::Register(Register::R2)]);
    assert_eq!(
        Instruction::generate(Opcode::ADD, &mut tokens),
        Err(CompileError::UnexpectedEOF)
    );
    assert!(tokens.is_empty());

    let mut tokens = queue(&[]);
    assert_eq!(
        Instruction::generate(Opcode::LDI, &mut tokens),
        Err(CompileError::UnexpectedEOF)
    );
}

#[test]
fn disassemble_each_shape() {
    assert_eq!(
        Instruction::disassemble(0x10, 0x0A),
        Ok(Instruction::RegImm(Opcode::LDI, Register::R0, 10))
    );
    assert_eq!(
        Instruction::disassemble(0x0F, 0xFF),
        Ok(Instruction::NoParam(Opcode::HLT))
    );
    assert_eq!(
        Instruction::disassemble(0x51, 0x2B),
        Ok(Instruction::DoubleReg(Opcode::JNZ, Register::R1, Register::R2))
    );
    assert_eq!(
        Instruction::disassemble(0x91, 0x2B),
        Ok(Instruction::DoubleRegImm4(Opcode::SHL, Register::R1, Register::R2, 11))
    );
    assert_eq!(
        Instruction::disassemble(0xEF, 0xED),
        Ok(Instruction::TripleReg(Opcode::OR, Register::R15, Register::R14, Register::R13))
    );
}

#[test]
fn disassemble_refuses_unmapped_codes() {
    assert_eq!(Instruction::disassemble(0xF0, 0x00), Err(CompileError::UnexpectedEOF));
    assert_eq!(Instruction::disassemble(0x1B, 0x00), Err(CompileError::UnexpectedEOF));
    assert_eq!(Instruction::disassemble(0x51, 0xB0), Err(CompileError::UnexpectedEOF));
    assert_eq!(Instruction::disassemble(0x21, 0x2B), Err(CompileError::UnexpectedEOF));
    assert_eq!(Instruction::disassemble(0x91, 0xB1), Err(CompileError::UnexpectedEOF));
}

fn round_trip(instruction: Instruction) {
    let bytes = instruction.serialize();
    assert_eq!(bytes.len(), Instruction::get_length(instruction.opcode()) as usize);
    let second = if bytes.len() == 2 { bytes[1] } else { 0xAB };
    assert_eq!(Instruction::disassemble(bytes[0], second), Ok(instruction));
}

#[test]
fn round_trip_through_bytes() {
    for opcode in OPCODES.iter().copied() {
        match Instruction::get_type(opcode) {
            InstructionType::NoParam => round_trip(Instruction::NoParam(opcode)),
            InstructionType::RegImm => {
                for reg in REGISTERS.iter().copied() {
                    for imm in 0..=255u8 {
                        round_trip(Instruction::RegImm(opcode, reg, imm));
                    }
                }
            }
            InstructionType::DoubleReg => {
                for reg in REGISTERS.iter().copied() {
                    for reg2 in REGISTERS.iter().copied() {
                        round_trip(Instruction::DoubleReg(opcode, reg, reg2));
                    }
                }
            }
            InstructionType::DoubleRegImm4 => {
                for reg in REGISTERS.iter().copied() {
                    for reg2 in REGISTERS.iter().copied() {
                        for imm4 in 0..16u8 {
                            round_trip(Instruction::DoubleRegImm4(opcode, reg, reg2, imm4));
                        }
                    }
                }
            }
            InstructionType::TripleReg => {
                for reg in REGISTERS.iter().copied() {
                    for reg2 in REGISTERS.iter().copied() {
                        for reg3 in REGISTERS.iter().copied() {
                            round_trip(Instruction::TripleReg(opcode, reg, reg2, reg3));
                        }
                    }
                }
            }
        }
    }
}

#[test]
fn round_trip_from_tokens() {
    let mut tokens = queue(&[
        Token::Register(Register::R12),
        Token::Register(Register::R7),
        Token::Immediate(15),
    ]);
    let instruction = Instruction::generate(Opcode::SHR, &mut tokens).unwrap();
    let bytes = instruction.serialize();
    assert_eq!(bytes, vec![0xAC, 0x7F]);
    assert_eq!(Instruction::disassemble(bytes[0], bytes[1]), Ok(instruction));
}

#[test]
fn decoded_operands_end_at_an_unmapped_register() {
    let mut operands = DecodedOperands::new(InstructionType::TripleReg, 0x21, 0x2B);
    assert_eq!(operands.pull(), Ok(Token::Register(Register::R1)));
    assert_eq!(operands.pull(), Ok(Token::Register(Register::R2)));
    assert_eq!(operands.pull(), Err(CompileError::UnexpectedEOF));
    assert_eq!(operands.pull(), Err(CompileError::UnexpectedEOF));

    let mut operands = DecodedOperands::new(InstructionType::RegImm, 0x1B, 0x07);
    assert_eq!(operands.pull(), Err(CompileError::UnexpectedEOF));

    let mut operands = DecodedOperands::new(InstructionType::DoubleRegImm4, 0x93, 0x4F);
    assert_eq!(operands.pull(), Ok(Token::Register(Register::R3)));
    assert_eq!(operands.pull(), Ok(Token::Register(Register::R4)));
    assert_eq!(operands.pull(), Ok(Token::Immediate(15)));
    assert_eq!(operands.pull(), Err(CompileError::UnexpectedEOF));

    let mut operands = DecodedOperands::new(InstructionType::NoParam, 0x01, 0x23);
    assert_eq!(operands.pull(), Err(CompileError::UnexpectedEOF));
}

#[test]
fn queue_hands_out_its_tokens_in_order() {
    let mut tokens = queue(&[Token::Immediate(1), Token::Immediate(2)]);
    assert_eq!(tokens.pull(), Ok(Token::Immediate(1)));
    assert_eq!(tokens.pull(), Ok(Token::Immediate(2)));
    assert_eq!(tokens.pull(), Err(CompileError::UnexpectedEOF));
}
