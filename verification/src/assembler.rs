//! Assembling a source text: tokens first, then instructions, then bytes.

pub mod error;
pub mod token;

use vstd::prelude::*;
use crate::assembler::error::{CompilationError, CompilationFault};
use crate::assembler::token::{tokenize, tokenized, views_of, Token, TokenType, TokenView};
use crate::compiler::compiler::{
    binary_of, built, CompilationState, Compiler, StateView,
};

verus! {

/// The piece that a token stands for: a symbol, a number and a comment each
/// with the token's characters, and nothing for whitespace and for a token
/// that took no character.
pub open spec fn piece_of(token: TokenView) -> Option<StateView> {
    match token.ttype {
        TokenType::Symbol => Some(StateView::Symbol(token.data)),
        TokenType::Number => Some(StateView::Numeric(token.data)),
        TokenType::Comment => Some(StateView::Comment(token.data)),
        TokenType::Whitespace => None,
        TokenType::Unknown => None,
    }
}

/// The pieces that the tokens stand for, in order.
pub open spec fn pieces_of(tokens: Seq<TokenView>) -> Seq<StateView>
    decreases tokens.len(),
{
    if tokens.len() == 0 {
        Seq::empty()
    } else {
        match piece_of(tokens.last()) {
            Some(piece) => pieces_of(tokens.drop_last()).push(piece),
            None => pieces_of(tokens.drop_last()),
        }
    }
}

/// The bytes that a source text assembles to, or the first fault met:
/// of tokenizing, then of classifying the tokens, then of building the
/// instructions.
pub open spec fn assembled_binary(input: Seq<u8>, path: Seq<char>) -> Result<
    Seq<u8>,
    CompilationFault,
> {
    match tokenized(input, path) {
        Err(fault) => Err(CompilationFault::Tokenizer(fault)),
        Ok(tokens) => match built(pieces_of(tokens)).fault {
            Some(fault) => Err(CompilationFault::Assembler(fault)),
            None => Ok(binary_of(built(pieces_of(tokens)).instructions)),
        },
    }
}

fn copy_of(data: &Vec<char>) -> (copy: Vec<char>)
    ensures
        copy@ == data@,
{
    let mut copy: Vec<char> = Vec::new();
    let mut i: usize = 0;
    while i < data.len()
        invariant
            i <= data@.len(),
            copy@ == data@.take(i as int),
        decreases data@.len() - i,
    {
        copy.push(data[i]);
        i += 1;
    }
    copy
}

/// The pieces that the tokens stand for, in order.
pub fn pieces(tokens: &Vec<Token>) -> (states: Vec<CompilationState>)
    ensures
        crate::compiler::compiler::views_of(states@) == pieces_of(views_of(tokens@)),
{
    let mut states: Vec<CompilationState> = Vec::new();
    let mut i: usize = 0;
    let ghost all = views_of(tokens@);
    while i < tokens.len()
        invariant
            i <= tokens@.len(),
            all == views_of(tokens@),
            crate::compiler::compiler::views_of(states@) == pieces_of(all.take(i as int)),
        decreases tokens@.len() - i,
    {
        assert(all.take(i + 1).drop_last() =~= all.take(i as int));
        let token = &tokens[i];
        match token.ttype() {
            TokenType::Symbol => {
                states.push(CompilationState::Symbol(copy_of(token.data())));
            },
            TokenType::Number => {
                states.push(CompilationState::Numeric(copy_of(token.data())));
            },
            TokenType::Comment => {
                states.push(CompilationState::Comment(copy_of(token.data())));
            },
            TokenType::Whitespace => {},
            TokenType::Unknown => {},
        }
        i += 1;
    }
    assert(all.take(i as int) =~= all);
    states
}

/// Assembles the source text at `file_path`, given as bytes, into the bytes
/// of its program.
pub fn compile(input_stream: &[u8], file_path: &str) -> (result: Result<
    Box<Vec<u8>>,
    CompilationError,
>)
    ensures
        match assembled_binary(input_stream@, file_path@) {
            Ok(binary) => result matches Ok(found) && found@ == binary,
            Err(fault) => result matches Err(found) && found@ == fault,
        },
{
    let tokens = match tokenize(input_stream, file_path) {
        Ok(tokens) => tokens,
        Err(fault) => {
            return Err(CompilationError::Tokenizer(fault));
        },
    };
    let states = pieces(&*tokens);
    let mut compiler = Compiler::with_states(states);
    match compiler.assemble() {
        Ok(binary) => {
            Ok(Box::new(binary))
        },
        Err(fault) => Err(CompilationError::Assembler(fault)),
    }
}

} // verus!
