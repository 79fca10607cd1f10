//! The tokenizer: a run of characters of one kind makes a token.

use vstd::prelude::*;
use crate::assembler::error::{
    Position, PositionView, TokenTypeConversionError, TokenizationError, TokenizationFault,
};
use crate::types::{is_decimal_digit, is_letter, letter};

verus! {

/// The kinds of token. `Unknown` is the kind of a token that has taken no
/// character yet.
#[derive(Clone, Copy, Debug, PartialEq, Eq, Structural)]
pub enum TokenType {
    Unknown,
    Symbol,
    Number,
    Whitespace,
    Comment,
}

/// What a token holds.
pub struct TokenView {
    pub position: PositionView,
    pub data: Seq<char>,
    pub ttype: TokenType,
}

/// A run of characters of one kind, and the place where it was opened.
#[derive(Debug)]
pub struct Token {
    position: Position,
    data: Vec<char>,
    ttype: TokenType,
}

impl View for Token {
    type V = TokenView;

    closed spec fn view(&self) -> TokenView {
        TokenView { position: self.position@, data: self.data@, ttype: self.ttype }
    }
}

/// `c` is a space, a tab, a line feed or a carriage return.
pub open spec fn is_space(c: char) -> bool {
    c == ' ' || c == '\t' || c == '\n' || c == '\r'
}

/// The kind that the character `c` has after what `token` holds.
///
/// Within a comment every character but the line end is comment, and the line
/// end is whitespace. After a number that is just `0`, the letter `x` in
/// either case is number. Otherwise a letter is symbol, a digit is symbol
/// within a symbol and number elsewhere, `#` is comment, and a character that
/// is none of these is unknown.
pub open spec fn converted(c: char, token: TokenView) -> Result<
    TokenType,
    TokenTypeConversionError,
> {
    if token.ttype == TokenType::Comment {
        if c != '\n' {
            Ok(TokenType::Comment)
        } else {
            Ok(TokenType::Whitespace)
        }
    } else if token.ttype == TokenType::Number && token.data.len() == 1 && token.data[0] == '0' && (
    c == 'x' || c == 'X') {
        Ok(TokenType::Number)
    } else if is_letter(c) {
        Ok(TokenType::Symbol)
    } else if is_decimal_digit(c) {
        if token.ttype == TokenType::Symbol {
            Ok(TokenType::Symbol)
        } else {
            Ok(TokenType::Number)
        }
    } else if is_space(c) {
        Ok(TokenType::Whitespace)
    } else if c == '#' {
        Ok(TokenType::Comment)
    } else {
        Err(TokenTypeConversionError::UnknownCharacter(c))
    }
}

/// The token after it has taken `c`: a token without a kind gets the kind of
/// `c`, and a token of the kind of `c` grows by it. A character of another
/// kind is refused with both kinds, and an unknown character as such.
pub open spec fn taken(token: TokenView, c: char) -> Result<TokenView, TokenTypeConversionError> {
    match converted(c, token) {
        Err(fault) => Err(fault),
        Ok(kind) => {
            let own = if token.ttype == TokenType::Unknown {
                kind
            } else {
                token.ttype
            };
            if own != kind {
                Err(TokenTypeConversionError::IncompatibleTypes(kind, own))
            } else {
                Ok(TokenView { data: token.data.push(c), ttype: own, ..token })
            }
        },
    }
}

/// A token opened at `position` that has taken nothing.
pub open spec fn fresh(position: PositionView) -> TokenView {
    TokenView { position, data: Seq::empty(), ttype: TokenType::Unknown }
}

/// How far tokenizing has come: the tokens that are closed, the token that
/// is open, the place after the last character read, and the fault that
/// stopped it.
pub struct LexView {
    pub tokens: Seq<TokenView>,
    pub current: TokenView,
    pub position: PositionView,
    pub fault: Option<TokenizationFault>,
}

/// Tokenizing after one more byte, read as the character with that code.
///
/// The place moves past the character first. A character that the open token
/// takes goes into it. A character of another kind closes the token and opens
/// a new one at the place after the character, which takes it. An unknown
/// character stops tokenizing with the place after it. After a fault nothing
/// changes.
pub open spec fn lex_step(lex: LexView, byte: u8) -> LexView {
    let c = byte as char;
    let position = lex.position.after(c);
    if lex.fault is Some {
        lex
    } else {
        match taken(lex.current, c) {
            Ok(current) => LexView { current, position, ..lex },
            Err(TokenTypeConversionError::IncompatibleTypes(_, _)) => LexView {
                tokens: lex.tokens.push(lex.current),
                current: match taken(fresh(position), c) {
                    Ok(current) => current,
                    Err(_) => fresh(position),
                },
                position,
                ..lex
            },
            Err(cause) => LexView {
                position,
                fault: Some(TokenizationFault { position, cause }),
                ..lex
            },
        }
    }
}

/// Tokenizing of a whole text, byte by byte.
pub open spec fn lexed(input: Seq<u8>, path: Seq<char>) -> LexView
    decreases input.len(),
{
    if input.len() == 0 {
        LexView {
            tokens: Seq::empty(),
            current: fresh(PositionView::start(path)),
            position: PositionView::start(path),
            fault: None,
        }
    } else {
        lex_step(lexed(input.drop_last(), path), input.last())
    }
}

/// The tokens of a text: those that were closed and, last, the one that was
/// still open at the end; or the fault that stopped tokenizing.
pub open spec fn tokenized(input: Seq<u8>, path: Seq<char>) -> Result<
    Seq<TokenView>,
    TokenizationFault,
> {
    let lex = lexed(input, path);
    match lex.fault {
        Some(fault) => Err(fault),
        None => Ok(lex.tokens.push(lex.current)),
    }
}

/// The views of the tokens.
pub open spec fn views_of(tokens: Seq<Token>) -> Seq<TokenView> {
    tokens.map_values(|token: Token| token@)
}

impl TokenType {
    /// The kind that the character `c` has after what `token` holds.
    pub fn convert_from(c: char, token: &Token) -> (result: Result<
        TokenType,
        TokenTypeConversionError,
    >)
        ensures
            result == converted(c, token@),
    {
        if token.ttype == TokenType::Comment {
            return Ok(
                if c != '\n' {
                    TokenType::Comment
                } else {
                    TokenType::Whitespace
                },
            );
        }
        if token.ttype == TokenType::Number && token.data.len() == 1 && token.data[0] == '0' && (c
            == 'x' || c == 'X') {
            return Ok(TokenType::Number);
        }
        let ttype = if letter(c) {
            TokenType::Symbol
        } else if '0' <= c && c <= '9' {
            if token.ttype == TokenType::Symbol {
                TokenType::Symbol
            } else {
                TokenType::Number
            }
        } else if c == ' ' || c == '\t' || c == '\n' || c == '\r' {
            TokenType::Whitespace
        } else if c == '#' {
            TokenType::Comment
        } else {
            TokenType::Unknown
        };
        if ttype == TokenType::Unknown {
            return Err(TokenTypeConversionError::UnknownCharacter(c));
        }
        Ok(ttype)
    }
}

impl Token {
    /// A token opened at `position` that has taken nothing.
    pub fn new(position: Position) -> (token: Self)
        ensures
            token@ == fresh(position@),
    {
        Token { position, data: Vec::new(), ttype: TokenType::Unknown }
    }

    /// Takes the character `c` into the token, or refuses it and leaves the
    /// token as it was.
    pub fn take(&mut self, c: char) -> (result: Result<(), TokenTypeConversionError>)
        ensures
            match taken(old(self)@, c) {
                Ok(token) => result == Ok::<(), TokenTypeConversionError>(()) && final(self)@
                    == token,
                Err(fault) => result == Err::<(), TokenTypeConversionError>(fault) && final(self)@
                    == old(self)@,
            },
    {
        let ttype = match TokenType::convert_from(c, self) {
            Ok(ttype) => ttype,
            Err(error) => {
                return Err(error);
            },
        };
        let own = if self.ttype == TokenType::Unknown {
            ttype
        } else {
            self.ttype
        };
        if own != ttype {
            return Err(TokenTypeConversionError::IncompatibleTypes(ttype, own));
        }
        self.ttype = own;
        self.data.push(c);
        Ok(())
    }

    /// The kind of the token.
    pub fn ttype(&self) -> (ttype: TokenType)
        ensures
            ttype == self@.ttype,
    {
        self.ttype
    }

    /// The characters of the token.
    pub fn data(&self) -> (data: &Vec<char>)
        ensures
            data@ == self@.data,
    {
        &self.data
    }

    /// The place where the token was opened.
    pub fn position(&self) -> (position: &Position)
        ensures
            position@ == self@.position,
    {
        &self.position
    }
}

/// A fresh token takes every character but an unknown one.
pub proof fn fresh_token_takes(position: PositionView, c: char)
    ensures
        converted(c, fresh(position)) matches Ok(kind) ==> taken(fresh(position), c) == Ok::<
            TokenView,
            TokenTypeConversionError,
        >(TokenView { position, data: seq![c], ttype: kind }),
        converted(c, fresh(position)) matches Err(fault) ==> fault
            == TokenTypeConversionError::UnknownCharacter(c),
{
}

/// A character that a token refuses for its kind is taken by a fresh token.
pub proof fn refused_character_opens_token(token: TokenView, c: char, position: PositionView)
    requires
        taken(token, c) matches Err(TokenTypeConversionError::IncompatibleTypes(_, _)),
    ensures
        taken(fresh(position), c) is Ok,
{
}

/// Tokenizing that a fault stopped stays as it is, whatever follows.
pub proof fn fault_ends_lexing(input: Seq<u8>, path: Seq<char>, length: int)
    requires
        0 <= length <= input.len(),
        lexed(input.take(length), path).fault is Some,
    ensures
        lexed(input, path) == lexed(input.take(length), path),
    decreases input.len() - length,
{
    if length == input.len() {
        assert(input.take(length) =~= input);
    } else {
        assert(input.take(length + 1).drop_last() =~= input.take(length));
        fault_ends_lexing(input, path, length + 1);
    }
}

/// Tokenizing stays in the text it started in, and while no fault has
/// stopped it, it stands at the place whose offset is the number of bytes
/// read.
pub proof fn lexing_counts_bytes(input: Seq<u8>, path: Seq<char>)
    ensures
        lexed(input, path).fault is None ==> lexed(input, path).position.offset == input.len(),
        lexed(input, path).position.within_offset(),
        lexed(input, path).position.offset <= input.len(),
        lexed(input, path).position.path == path,
    decreases input.len(),
{
    if input.len() > 0 {
        lexing_counts_bytes(input.drop_last(), path);
    }
}

/// Turns the bytes of the text at `file_path`, each read as the character
/// with its code, into tokens.
pub fn tokenize(input_stream: &[u8], file_path: &str) -> (result: Result<
    Box<Vec<Token>>,
    TokenizationError,
>)
    ensures
        match tokenized(input_stream@, file_path@) {
            Ok(tokens) => result matches Ok(found) && views_of(found@) == tokens,
            Err(fault) => result matches Err(found) && found@ == fault,
        },
{
    let mut tokens: Vec<Token> = Vec::new();
    let mut pos = Position::new(file_path);
    let mut current_token = Token::new(pos.clone());
    let mut i: usize = 0;
    while i < input_stream.len()
        invariant
            i <= input_stream@.len(),
            lexed(input_stream@.take(i as int), file_path@).fault is None,
            lexed(input_stream@.take(i as int), file_path@).tokens == views_of(tokens@),
            lexed(input_stream@.take(i as int), file_path@).current == current_token@,
            lexed(input_stream@.take(i as int), file_path@).position == pos@,
        decreases input_stream@.len() - i,
    {
        proof {
            lexing_counts_bytes(input_stream@.take(i as int), file_path@);
            assert(input_stream@.take(i + 1).drop_last() =~= input_stream@.take(i as int));
        }
        let c = input_stream[i] as char;
        if c == '\n' {
            pos.next_line();
        } else {
            pos.next_char();
        }
        match current_token.take(c) {
            Ok(_) => {},
            Err(TokenTypeConversionError::IncompatibleTypes(_, _)) => {
                tokens.push(current_token);
                current_token = Token::new(pos.clone());
                let _ = current_token.take(c);
            },
            Err(error) => {
                proof {
                    fault_ends_lexing(input_stream@, file_path@, i + 1);
                }
                return Err(TokenizationError::TokenTypeConversion(pos, error));
            },
        }
        i += 1;
    }
    assert(input_stream@.take(i as int) =~= input_stream@);
    tokens.push(current_token);
    Ok(Box::new(tokens))
}

} // verus!
