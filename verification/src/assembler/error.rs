//! Positions in a source text and the faults of turning it into tokens.

use vstd::prelude::*;
use std::rc::Rc;
use crate::assembler::token::TokenType;
use crate::compiler::compiler::{CompileError, ErrorView};

verus! {

/// A place in a source text: the path of the text, the number of characters
/// before the place, the number of line ends among them, and the number of
/// characters since the last line end.
pub struct PositionView {
    pub path: Seq<char>,
    pub line: nat,
    pub column: nat,
    pub offset: nat,
}

impl PositionView {
    /// The start of the text at `path`.
    pub open spec fn start(path: Seq<char>) -> PositionView {
        PositionView { path, line: 0, column: 0, offset: 0 }
    }

    /// The place after a line end.
    pub open spec fn after_line_end(self) -> PositionView {
        PositionView { line: self.line + 1, column: 0, offset: self.offset + 1, ..self }
    }

    /// The place after a character that ends no line.
    pub open spec fn after_char(self) -> PositionView {
        PositionView { column: self.column + 1, offset: self.offset + 1, ..self }
    }

    /// The place after the character `c`.
    pub open spec fn after(self, c: char) -> PositionView {
        if c == '\n' {
            self.after_line_end()
        } else {
            self.after_char()
        }
    }

    /// Neither the line nor the column exceeds the offset.
    pub open spec fn within_offset(self) -> bool {
        self.line <= self.offset && self.column <= self.offset
    }
}

/// A place in a source text. The path is held by a shared handle, so that the
/// places of one text share one copy of it.
#[derive(Debug, PartialEq, Eq)]
pub struct Position {
    path: Rc<String>,
    line_number: usize,
    line_offset: usize,
    actual_offset: usize,
}

impl View for Position {
    type V = PositionView;

    closed spec fn view(&self) -> PositionView {
        PositionView {
            path: self.path@,
            line: self.line_number as nat,
            column: self.line_offset as nat,
            offset: self.actual_offset as nat,
        }
    }
}

/// One more handle to the text that `handle` holds.
///
/// Trusted: this is `Rc::clone` of the standard library, which is taken to
/// give a pointer to the same allocation, and so to the same text.
#[verifier::external_body]
fn share(handle: &Rc<String>) -> (shared: Rc<String>)
    ensures
        shared == *handle,
{
    Rc::clone(handle)
}

impl Clone for Position {
    /// The same place, with one more handle to the path.
    fn clone(&self) -> (position: Self)
        ensures
            position@ == self@,
    {
        proof {
            use_type_invariant(self);
        }
        Position {
            path: share(&self.path),
            line_number: self.line_number,
            line_offset: self.line_offset,
            actual_offset: self.actual_offset,
        }
    }
}

impl Position {
    #[verifier::type_invariant]
    closed spec fn well_formed(&self) -> bool {
        self.line_number <= self.actual_offset && self.line_offset <= self.actual_offset
    }

    /// The start of the text at `path`.
    pub fn new(path: &str) -> (position: Self)
        ensures
            position@ == PositionView::start(path@),
    {
        Position { path: Rc::new(path.to_owned()), line_number: 0, line_offset: 0, actual_offset: 0 }
    }

    /// The path of the text.
    pub fn get_path(&self) -> (path: &str)
        ensures
            path@ == self@.path,
    {
        self.path.as_str()
    }

    /// The line and the column of the place.
    pub fn get_line_info(&self) -> (info: (usize, usize))
        ensures
            info.0 == self@.line,
            info.1 == self@.column,
    {
        (self.line_number, self.line_offset)
    }

    /// The number of characters before the place.
    pub fn get_offset(&self) -> (offset: usize)
        ensures
            offset == self@.offset,
    {
        self.actual_offset
    }

    /// Moves past a line end.
    pub fn next_line(&mut self)
        requires
            old(self)@.offset < usize::MAX,
        ensures
            final(self)@ == old(self)@.after_line_end(),
    {
        proof {
            use_type_invariant(&*self);
        }
        self.actual_offset += 1;
        self.line_number += 1;
        self.line_offset = 0;
    }

    /// Moves past a character that ends no line.
    pub fn next_char(&mut self)
        requires
            old(self)@.offset < usize::MAX,
        ensures
            final(self)@ == old(self)@.after_char(),
    {
        proof {
            use_type_invariant(&*self);
        }
        self.actual_offset += 1;
        self.line_offset += 1;
    }
}

/// Why a character does not go on with a token.
#[derive(Clone, Copy, Debug, PartialEq, Eq, Structural)]
pub enum TokenTypeConversionError {
    /// The kind that the character has, and the kind of the token.
    IncompatibleTypes(TokenType, TokenType),
    UnknownCharacter(char),
}

/// Why a text could not be turned into tokens, and where.
#[derive(Clone, Debug, PartialEq, Eq)]
pub enum TokenizationError {
    TokenTypeConversion(Position, TokenTypeConversionError),
}

/// What a tokenization fault holds.
pub struct TokenizationFault {
    pub position: PositionView,
    pub cause: TokenTypeConversionError,
}

impl View for TokenizationError {
    type V = TokenizationFault;

    open spec fn view(&self) -> TokenizationFault {
        match self {
            TokenizationError::TokenTypeConversion(position, cause) => TokenizationFault {
                position: position@,
                cause: *cause,
            },
        }
    }
}

/// Why a text could not be assembled.
#[derive(Clone, Debug, PartialEq, Eq)]
pub enum CompilationError {
    Tokenizer(TokenizationError),
    Assembler(CompileError),
}

/// What an assembling fault holds.
pub enum CompilationFault {
    Tokenizer(TokenizationFault),
    Assembler(ErrorView),
}

impl View for CompilationError {
    type V = CompilationFault;

    open spec fn view(&self) -> CompilationFault {
        match self {
            CompilationError::Tokenizer(fault) => CompilationFault::Tokenizer(fault@),
            CompilationError::Assembler(fault) => CompilationFault::Assembler(fault@),
        }
    }
}

} // verus!
