//! The assembler: from characters to scanned pieces, to tokens, to
//! instructions, to bytes.

use vstd::prelude::*;
use std::collections::VecDeque;
use crate::compiler::instruction::{generated, pulled, serialized, Instruction};
use crate::compiler::token::Token;
use crate::types::{is_decimal_digit, is_letter, letter, Opcode, Register};

verus! {

/// A piece of source text as the scanner collects it.
#[derive(Clone, Debug, PartialEq, Eq)]
pub enum CompilationState {
    Comment(Vec<char>),
    Symbol(Vec<char>),
    Numeric(Vec<char>),
}

/// What a scanned piece holds.
pub enum StateView {
    Comment(Seq<char>),
    Symbol(Seq<char>),
    Numeric(Seq<char>),
}

impl View for CompilationState {
    type V = StateView;

    open spec fn view(&self) -> StateView {
        match self {
            CompilationState::Comment(data) => StateView::Comment(data@),
            CompilationState::Symbol(data) => StateView::Symbol(data@),
            CompilationState::Numeric(data) => StateView::Numeric(data@),
        }
    }
}

/// Why assembling failed.
#[derive(Clone, Debug, PartialEq, Eq)]
pub enum CompileError {
    ReadFromInputFailed,
    WriteToOutputFailed,
    UnexpectedEOF,
    UnhandledState(CompilationState),
    UnknownSymbol(String),
    InvalidNumber(String),
    UnexpectedTokenType(Token),
    UnexpectedCharacter(char),
}

/// What an error holds.
pub enum ErrorView {
    ReadFromInputFailed,
    WriteToOutputFailed,
    UnexpectedEOF,
    UnhandledState(StateView),
    UnknownSymbol(Seq<char>),
    InvalidNumber(Seq<char>),
    UnexpectedTokenType(Token),
    UnexpectedCharacter(char),
}

impl View for CompileError {
    type V = ErrorView;

    open spec fn view(&self) -> ErrorView {
        match self {
            CompileError::ReadFromInputFailed => ErrorView::ReadFromInputFailed,
            CompileError::WriteToOutputFailed => ErrorView::WriteToOutputFailed,
            CompileError::UnexpectedEOF => ErrorView::UnexpectedEOF,
            CompileError::UnhandledState(state) => ErrorView::UnhandledState(state@),
            CompileError::UnknownSymbol(text) => ErrorView::UnknownSymbol(text@),
            CompileError::InvalidNumber(text) => ErrorView::InvalidNumber(text@),
            CompileError::UnexpectedTokenType(token) => ErrorView::UnexpectedTokenType(*token),
            CompileError::UnexpectedCharacter(c) => ErrorView::UnexpectedCharacter(*c),
        }
    }
}

/// The number that a hexadecimal digit stands for, in either case, and
/// nothing for any other character.
pub open spec fn hex_value(c: char) -> Option<int> {
    if '0' <= c && c <= '9' {
        Some(c as int - 48)
    } else if 'a' <= c && c <= 'f' {
        Some(c as int - 87)
    } else if 'A' <= c && c <= 'F' {
        Some(c as int - 55)
    } else {
        None
    }
}

/// The number that `c` stands for as a digit of the given radix, ten or
/// sixteen, and nothing where it is no such digit.
pub open spec fn digit_value(c: char, radix: int) -> Option<int> {
    if radix == 16 {
        hex_value(c)
    } else if is_decimal_digit(c) {
        Some(c as int - 48)
    } else {
        None
    }
}

/// Whether every character of `digits` is a digit of the given radix.
pub open spec fn all_digits(digits: Seq<char>, radix: int) -> bool {
    forall|i: int| 0 <= i < digits.len() ==> (#[trigger] digit_value(digits[i], radix)) is Some
}

/// The number that `digits` write in the given radix, the most significant
/// digit first. A character that is no digit counts as zero.
pub open spec fn number_value(digits: Seq<char>, radix: int) -> int
    decreases digits.len(),
{
    if digits.len() == 0 {
        0
    } else {
        let last = match digit_value(digits.last(), radix) {
            Some(value) => value,
            None => 0,
        };
        number_value(digits.drop_last(), radix) * radix + last
    }
}

/// The byte that `digits` write in the given radix: there is at least one
/// digit, there is nothing but digits, and the number is at most 255.
pub open spec fn parsed(digits: Seq<char>, radix: int) -> Option<u8> {
    if digits.len() > 0 && all_digits(digits, radix) && number_value(digits, radix) <= 255 {
        Some(number_value(digits, radix) as u8)
    } else {
        None
    }
}

/// `data` without the prefix `0x`, as often as it stands at the front.
pub open spec fn stripped(data: Seq<char>) -> Seq<char>
    decreases data.len(),
{
    if data.len() >= 2 && data[0] == '0' && data[1] == 'x' {
        stripped(data.skip(2))
    } else {
        data
    }
}

/// The byte that a numeric literal writes: in decimal, or else, where the
/// literal is longer than two characters and starts with `0x`, in hexadecimal
/// after that prefix.
pub open spec fn number_of(data: Seq<char>) -> Option<u8> {
    match parsed(data, 10) {
        Some(value) => Some(value),
        None => if data.len() > 2 && data[0] == '0' && data[1] == 'x' {
            parsed(stripped(data), 16)
        } else {
            None
        },
    }
}

/// A longer front part of the digits writes no smaller number.
pub proof fn number_value_grows(digits: Seq<char>, radix: int, shorter: int, longer: int)
    requires
        radix == 10 || radix == 16,
        0 <= shorter <= longer <= digits.len(),
    ensures
        0 <= number_value(digits.take(shorter), radix) <= number_value(digits.take(longer), radix),
    decreases longer - shorter, longer,
{
    if shorter == 0 && longer == 0 {
    } else if shorter == longer {
        number_value_grows(digits, radix, shorter - 1, longer - 1);
        assert(digits.take(longer).drop_last() =~= digits.take(longer - 1));
    } else {
        number_value_grows(digits, radix, shorter, longer - 1);
        assert(digits.take(longer).drop_last() =~= digits.take(longer - 1));
        assert(number_value(digits.take(longer - 1), radix) * radix >= number_value(
            digits.take(longer - 1),
            radix,
        )) by (nonlinear_arith)
            requires
                number_value(digits.take(longer - 1), radix) >= 0,
                radix >= 1,
        ;
    }
}

/// The number of a digit of the given radix.
fn digit(c: char, radix: u16) -> (value: Option<u16>)
    requires
        radix == 10 || radix == 16,
    ensures
        value matches Some(number) ==> digit_value(c, radix as int) == Some(number as int)
            && number < radix,
        value is None ==> digit_value(c, radix as int) is None,
{
    if '0' <= c && c <= '9' {
        Some((c as u8 - 48) as u16)
    } else if radix == 16 && 'a' <= c && c <= 'f' {
        Some((c as u8 - 87) as u16)
    } else if radix == 16 && 'A' <= c && c <= 'F' {
        Some((c as u8 - 55) as u16)
    } else {
        None
    }
}

/// The byte that the characters of `data` from place `start` on write in the
/// given radix.
fn parse_digits(data: &Vec<char>, start: usize, radix: u16) -> (value: Option<u8>)
    requires
        radix == 10 || radix == 16,
        start <= data@.len(),
    ensures
        value == parsed(data@.skip(start as int), radix as int),
{
    let ghost digits = data@.skip(start as int);
    if start == data.len() {
        return None;
    }
    let mut total: u16 = 0;
    let mut i: usize = start;
    while i < data.len()
        invariant
            radix == 10 || radix == 16,
            start <= i <= data@.len(),
            digits == data@.skip(start as int),
            total == number_value(digits.take(i - start), radix as int),
            total <= 255,
            all_digits(digits.take(i - start), radix as int),
        decreases data@.len() - i,
    {
        let ghost front = digits.take(i - start);
        let ghost longer = digits.take(i - start + 1);
        assert(longer.drop_last() =~= front);
        match digit(data[i], radix) {
            None => {
                assert(digit_value(digits[i - start], radix as int) is None);
                return None;
            },
            Some(number) => {
                let next: u16 = total * radix + number;
                if next > 255 {
                    proof {
                        number_value_grows(digits, radix as int, i - start + 1, digits.len() as int);
                        assert(digits.take(digits.len() as int) =~= digits);
                    }
                    return None;
                }
                total = next;
                assert(all_digits(longer, radix as int)) by {
                    assert forall|k: int| 0 <= k < front.len() implies longer[k] == front[k] by {}
                }
            },
        }
        i += 1;
    }
    assert(digits.take(digits.len() as int) =~= digits);
    Some(total as u8)
}

/// The place in `data` where the leading repetitions of `0x` end.
fn skip_prefix(data: &Vec<char>) -> (start: usize)
    ensures
        start <= data@.len(),
        data@.skip(start as int) == stripped(data@),
{
    let mut start: usize = 0;
    assert(data@.skip(0) =~= data@);
    while data.len() - start >= 2 && data[start] == '0' && data[start + 1] == 'x'
        invariant
            start <= data@.len(),
            stripped(data@) == stripped(data@.skip(start as int)),
        decreases data@.len() - start,
    {
        assert(data@.skip(start as int).skip(2) =~= data@.skip(start + 2));
        start += 2;
    }
    start
}

/// The byte that the numeric literal `data` writes.
pub fn parse_number(data: &Vec<char>) -> (value: Option<u8>)
    ensures
        value == number_of(data@),
{
    assert(data@.skip(0) =~= data@);
    match parse_digits(data, 0, 10) {
        Some(value) => Some(value),
        None => {
            if data.len() > 2 && data[0] == '0' && data[1] == 'x' {
                let start = skip_prefix(data);
                parse_digits(data, start, 16)
            } else {
                None
            }
        },
    }
}

/// The token that a scanned piece stands for: nothing for a comment; for a
/// symbol the operation it names, or else the register it names; for a
/// numeric literal the byte it writes. A symbol that names neither and a
/// literal that writes no byte are faults.
pub open spec fn classified_one(state: StateView) -> Result<Option<Token>, ErrorView> {
    match state {
        StateView::Comment(_) => Ok(None),
        StateView::Symbol(data) => match Opcode::of_mnemonic(data) {
            Ok(opcode) => Ok(Some(Token::Opcode(opcode))),
            Err(_) => match Register::of_mnemonic(data) {
                Ok(register) => Ok(Some(Token::Register(register))),
                Err(_) => Err(ErrorView::UnknownSymbol(data)),
            },
        },
        StateView::Numeric(data) => match number_of(data) {
            Some(value) => Ok(Some(Token::Immediate(value))),
            None => Err(ErrorView::InvalidNumber(data)),
        },
    }
}

/// The tokens that the pieces stand for, in order, or the fault of the first
/// piece that has one.
pub open spec fn classified(states: Seq<StateView>) -> Result<Seq<Token>, ErrorView>
    decreases states.len(),
{
    if states.len() == 0 {
        Ok(Seq::empty())
    } else {
        match classified(states.drop_last()) {
            Err(fault) => Err(fault),
            Ok(tokens) => match classified_one(states.last()) {
                Err(fault) => Err(fault),
                Ok(None) => Ok(tokens),
                Ok(Some(token)) => Ok(tokens.push(token)),
            },
        }
    }
}

/// What building instructions from tokens comes to: the instructions built,
/// the fault that ended building, if any, and the tokens that were not taken.
pub struct Assembly {
    pub instructions: Seq<Instruction>,
    pub fault: Option<CompileError>,
    pub rest: Seq<Token>,
}

impl Assembly {
    /// This outcome with `done` built before it.
    pub open spec fn after(self, done: Seq<Instruction>) -> Assembly {
        Assembly { instructions: done + self.instructions, ..self }
    }
}

/// Building instructions from tokens. Each instruction starts with an
/// operation and goes on with exactly the operands of its pattern. A token
/// that is no operation where an instruction should start is a fault, and so
/// is every fault of building an instruction. The first fault ends building:
/// the instructions before it stay, and no token is taken after the last one
/// that building the faulty instruction took.
pub open spec fn assembly(tokens: Seq<Token>) -> Assembly
    decreases tokens.len(),
{
    if tokens.len() == 0 {
        Assembly { instructions: Seq::empty(), fault: None, rest: tokens }
    } else {
        let rest = tokens.skip(1);
        match tokens[0] {
            Token::Opcode(opcode) => {
                let after_operands = rest.skip(pulled(opcode, rest) as int);
                match generated(opcode, rest) {
                    Err(fault) => Assembly {
                        instructions: Seq::empty(),
                        fault: Some(fault),
                        rest: after_operands,
                    },
                    Ok(instruction) => assembly(after_operands).after(seq![instruction]),
                }
            },
            token => Assembly {
                instructions: Seq::empty(),
                fault: Some(CompileError::UnexpectedTokenType(token)),
                rest,
            },
        }
    }
}

/// The bytes of the instructions, one after the other.
pub open spec fn binary_of(instructions: Seq<Instruction>) -> Seq<u8>
    decreases instructions.len(),
{
    if instructions.len() == 0 {
        Seq::empty()
    } else {
        binary_of(instructions.drop_last()) + serialized(instructions.last())
    }
}

/// The views of the pieces.
pub open spec fn views_of(states: Seq<CompilationState>) -> Seq<StateView> {
    states.map_values(|state: CompilationState| state@)
}

/// An ordered list of instructions.
pub struct Bytecode {
    instructions: Vec<Instruction>,
}

impl View for Bytecode {
    type V = Seq<Instruction>;

    closed spec fn view(&self) -> Seq<Instruction> {
        self.instructions@
    }
}

impl Bytecode {
    /// An empty list.
    pub fn new() -> (bytecode: Self)
        ensures
            bytecode@ == Seq::<Instruction>::empty(),
    {
        Self { instructions: Vec::new() }
    }

    /// The bytes of the instructions, one after the other.
    pub fn create_binary(&self) -> (binary: Vec<u8>)
        ensures
            binary@ == binary_of(self@),
    {
        let mut binary: Vec<u8> = Vec::new();
        let mut i: usize = 0;
        while i < self.instructions.len()
            invariant
                i <= self.instructions@.len(),
                binary@ == binary_of(self.instructions@.take(i as int)),
            decreases self.instructions@.len() - i,
        {
            let mut bytes = self.instructions[i].serialize();
            binary.append(&mut bytes);
            assert(self.instructions@.take(i + 1).drop_last() =~= self.instructions@.take(
                i as int,
            ));
            i += 1;
        }
        assert(self.instructions@.take(i as int) =~= self.instructions@);
        binary
    }
}

/// The text that the characters spell.
///
/// Trusted: this is `String::from_iter` of the standard library, which is
/// taken to give the string made of exactly these characters, in order.
#[verifier::external_body]
fn text_of(data: &Vec<char>) -> (text: String)
    ensures
        text@ == data@,
{
    String::from_iter(data)
}

/// The token that a scanned piece stands for.
pub fn classify(state: &CompilationState) -> (result: Result<Option<Token>, CompileError>)
    ensures
        match result {
            Ok(token) => classified_one(state@) == Ok::<Option<Token>, ErrorView>(token),
            Err(fault) => classified_one(state@) == Err::<Option<Token>, ErrorView>(fault@),
        },
{
    match state {
        CompilationState::Comment(_) => Ok(None),
        CompilationState::Symbol(data) => {
            match Opcode::lookup(data) {
                Ok(opcode) => Ok(Some(Token::Opcode(opcode))),
                Err(_) => match Register::lookup(data) {
                    Ok(register) => Ok(Some(Token::Register(register))),
                    Err(_) => Err(CompileError::UnknownSymbol(text_of(data))),
                },
            }
        },
        CompilationState::Numeric(data) => {
            match parse_number(data) {
                Some(value) => Ok(Some(Token::Immediate(value))),
                None => Err(CompileError::InvalidNumber(text_of(data))),
            }
        },
    }
}

/// `c` is an ASCII space, tab, line feed, form feed or carriage return.
pub open spec fn is_blank(c: char) -> bool {
    c == ' ' || c == '\t' || c == '\n' || c == '\x0C' || c == '\r'
}

/// The piece that `c` opens where none is open: a comment after `#`, a
/// symbol that starts with a letter, a numeric literal that starts with a
/// digit. Blank characters open nothing, and no other character is known.
pub open spec fn opened(c: char) -> Result<Option<StateView>, ErrorView> {
    if c == '#' {
        Ok(Some(StateView::Comment(Seq::empty())))
    } else if is_letter(c) {
        Ok(Some(StateView::Symbol(seq![c])))
    } else if is_decimal_digit(c) {
        Ok(Some(StateView::Numeric(seq![c])))
    } else if is_blank(c) {
        Ok(None)
    } else {
        Err(ErrorView::UnexpectedCharacter(c))
    }
}

/// Whether `c` goes on with the open piece: a comment runs up to the end of
/// the line, a symbol takes letters and digits, and a numeric literal takes
/// hexadecimal digits and, after a leading zero, the letter `x`.
pub open spec fn continues(state: StateView, c: char) -> bool {
    match state {
        StateView::Comment(_) => c != '\n',
        StateView::Symbol(_) => is_letter(c) || is_decimal_digit(c),
        StateView::Numeric(data) => hex_value(c) is Some || (c == 'x' && data.len() > 0 && data[0]
            == '0'),
    }
}

/// The piece with `c` at its end.
pub open spec fn extended(state: StateView, c: char) -> StateView {
    match state {
        StateView::Comment(data) => StateView::Comment(data.push(c)),
        StateView::Symbol(data) => StateView::Symbol(data.push(c)),
        StateView::Numeric(data) => StateView::Numeric(data.push(c)),
    }
}

/// How far scanning has come: the pieces that are closed, the piece that is
/// open, and the fault that stopped the scan.
pub struct ScanView {
    pub collected: Seq<StateView>,
    pub current: Option<StateView>,
    pub fault: Option<ErrorView>,
}

impl ScanView {
    /// The closed pieces and, last, the open one where there is one.
    pub open spec fn pieces(self) -> Seq<StateView> {
        match self.current {
            Some(open) => self.collected.push(open),
            None => self.collected,
        }
    }
}

/// The view of a piece that may be there.
pub open spec fn view_of_open(open: Option<CompilationState>) -> Option<StateView> {
    match open {
        Some(state) => Some(state@),
        None => None,
    }
}

/// The scan after one more character. A character that goes on with the
/// open piece is taken into it. Any other character closes the open piece,
/// where there is one, and is then read as at the start of a piece: it opens
/// the next piece, or is blank, or is unknown and stops the scan. After a
/// fault nothing changes.
pub open spec fn scan_step(scan: ScanView, c: char) -> ScanView {
    if scan.fault is Some {
        scan
    } else if scan.current is Some && continues(scan.current->Some_0, c) {
        ScanView { current: Some(extended(scan.current->Some_0, c)), ..scan }
    } else {
        match opened(c) {
            Ok(current) => ScanView { collected: scan.pieces(), current, fault: None },
            Err(fault) => ScanView { collected: scan.pieces(), current: None, fault: Some(fault) },
        }
    }
}

/// The scan of a whole text, character by character.
pub open spec fn scanned(data: Seq<char>) -> ScanView
    decreases data.len(),
{
    if data.len() == 0 {
        ScanView { collected: Seq::empty(), current: None, fault: None }
    } else {
        scan_step(scanned(data.drop_last()), data.last())
    }
}

/// What scanning a text gives in the end: its pieces, the one that the end of
/// the text closes among them, or the fault that stopped the scan.
pub open spec fn scan_result(data: Seq<char>) -> Result<Seq<StateView>, ErrorView> {
    let scan = scanned(data);
    match scan.fault {
        Some(fault) => Err(fault),
        None => Ok(scan.pieces()),
    }
}

/// A scan that a fault stopped stays as it is, whatever follows.
pub proof fn fault_ends_scan(data: Seq<char>, length: int)
    requires
        0 <= length <= data.len(),
        scanned(data.take(length)).fault is Some,
    ensures
        scanned(data) == scanned(data.take(length)),
    decreases data.len() - length,
{
    if length == data.len() {
        assert(data.take(length) =~= data);
    } else {
        assert(data.take(length + 1).drop_last() =~= data.take(length));
        fault_ends_scan(data, length + 1);
    }
}

/// The state of an assembler.
pub struct CompilerView {
    pub data: Seq<char>,
    pub collected: Seq<StateView>,
    pub generated: Seq<Instruction>,
}

/// What assembling comes to: the instructions built and the fault that
/// ended the pass, if any.
pub struct Built {
    pub instructions: Seq<Instruction>,
    pub fault: Option<ErrorView>,
}

/// Assembling the pieces: they are classified, which builds nothing where a
/// piece has a fault, and the instructions that their tokens write are built
/// up to the first fault.
pub open spec fn built(pieces: Seq<StateView>) -> Built {
    match classified(pieces) {
        Err(fault) => Built { instructions: Seq::empty(), fault: Some(fault) },
        Ok(tokens) => Built {
            instructions: assembly(tokens).instructions,
            fault: match assembly(tokens).fault {
                Some(fault) => Some(fault@),
                None => None,
            },
        },
    }
}

/// Assembling from the state `before`: the text is scanned, which builds
/// nothing where the scan fails, and the pieces collected before the scan are
/// assembled along with the new ones.
pub open spec fn compiled(before: CompilerView) -> Built {
    match scan_result(before.data) {
        Err(fault) => Built { instructions: Seq::empty(), fault: Some(fault) },
        Ok(pieces) => built(before.collected + pieces),
    }
}

/// An assembler for one source text.
pub struct Compiler {
    generated: Bytecode,
    collected_states: Vec<CompilationState>,
    data: Vec<char>,
}

impl View for Compiler {
    type V = CompilerView;

    closed spec fn view(&self) -> CompilerView {
        CompilerView {
            data: self.data@,
            collected: views_of(self.collected_states@),
            generated: self.generated@,
        }
    }
}

fn decimal(c: char) -> (yes: bool)
    ensures
        yes == is_decimal_digit(c),
{
    '0' <= c && c <= '9'
}

fn blank(c: char) -> (yes: bool)
    ensures
        yes == is_blank(c),
{
    c == ' ' || c == '\t' || c == '\n' || c == '\x0C' || c == '\r'
}

fn hexadecimal(c: char) -> (yes: bool)
    ensures
        yes == (hex_value(c) is Some),
{
    ('0' <= c && c <= '9') || ('a' <= c && c <= 'f') || ('A' <= c && c <= 'F')
}

/// The piece that `c` opens where none is open.
fn open_piece(c: char) -> (result: Result<Option<CompilationState>, CompileError>)
    ensures
        match opened(c) {
            Ok(next) => result matches Ok(found) && view_of_open(found) == next,
            Err(fault) => result matches Err(found) && found@ == fault,
        },
{
    if c == '#' {
        Ok(Some(CompilationState::Comment(Vec::new())))
    } else if letter(c) {
        let mut data: Vec<char> = Vec::new();
        data.push(c);
        Ok(Some(CompilationState::Symbol(data)))
    } else if decimal(c) {
        let mut data: Vec<char> = Vec::new();
        data.push(c);
        Ok(Some(CompilationState::Numeric(data)))
    } else if blank(c) {
        Ok(None)
    } else {
        Err(CompileError::UnexpectedCharacter(c))
    }
}

impl Compiler {
    /// An assembler for the text `data`, with nothing scanned and nothing
    /// built.
    pub fn new(data: Vec<char>) -> (compiler: Self)
        ensures
            compiler@ == (CompilerView {
                data: data@,
                collected: Seq::empty(),
                generated: Seq::empty(),
            }),
    {
        let compiler = Self { generated: Bytecode::new(), collected_states: Vec::new(), data };
        assert(views_of(compiler.collected_states@) =~= Seq::empty());
        compiler
    }

    /// An assembler that holds the given pieces as if it had scanned them.
    pub fn with_states(states: Vec<CompilationState>) -> (compiler: Self)
        ensures
            compiler@ == (CompilerView {
                data: Seq::empty(),
                collected: views_of(states@),
                generated: Seq::empty(),
            }),
    {
        Self { generated: Bytecode::new(), collected_states: states, data: Vec::new() }
    }

    /// Takes `c` into the open piece `state`, or closes the piece and reads
    /// `c` as at the start of a piece.
    fn consume(&mut self, state: CompilationState, c: char) -> (result: Result<
        Option<CompilationState>,
        CompileError,
    >)
        ensures
            final(self)@.data == old(self)@.data,
            final(self)@.generated == old(self)@.generated,
            continues(state@, c) ==> final(self)@.collected == old(self)@.collected && (
            result matches Ok(Some(open)) && open@ == extended(state@, c)),
            !continues(state@, c) ==> final(self)@.collected == old(self)@.collected.push(state@)
                && match opened(c) {
                Ok(next) => result matches Ok(found) && view_of_open(found) == next,
                Err(fault) => result matches Err(found) && found@ == fault,
            },
    {
        let goes_on = match &state {
            CompilationState::Comment(_) => c != '\n',
            CompilationState::Symbol(_) => letter(c) || decimal(c),
            CompilationState::Numeric(data) => hexadecimal(c) || (c == 'x' && data.len() > 0
                && data[0] == '0'),
        };
        if goes_on {
            Ok(
                Some(
                    match state {
                        CompilationState::Comment(data) => {
                            let mut data = data;
                            data.push(c);
                            CompilationState::Comment(data)
                        },
                        CompilationState::Symbol(data) => {
                            let mut data = data;
                            data.push(c);
                            CompilationState::Symbol(data)
                        },
                        CompilationState::Numeric(data) => {
                            let mut data = data;
                            data.push(c);
                            CompilationState::Numeric(data)
                        },
                    },
                ),
            )
        } else {
            self.collected_states.push(state);
            open_piece(c)
        }
    }

    /// Scans the text into pieces, which are added to those collected before.
    /// The end of the text closes the piece that is open there. An unknown
    /// character stops the scan; the pieces closed before it stay.
    pub fn collect_states(&mut self) -> (result: Result<(), CompileError>)
        ensures
            final(self)@.data == old(self)@.data,
            final(self)@.generated == old(self)@.generated,
            final(self)@.collected == old(self)@.collected + scanned(old(self)@.data).pieces(),
            match scanned(old(self)@.data).fault {
                None => result == Ok::<(), CompileError>(()),
                Some(fault) => result matches Err(found) && found@ == fault,
            },
    {
        let mut current_state: Option<CompilationState> = None;
        let mut i: usize = 0;
        let ghost before = self@.collected;
        while i < self.data.len()
            invariant
                i <= self.data@.len(),
                self@.data == old(self)@.data,
                self@.generated == old(self)@.generated,
                before == old(self)@.collected,
                scanned(self.data@.take(i as int)).fault is None,
                self@.collected == before + scanned(self.data@.take(i as int)).collected,
                view_of_open(current_state) == scanned(self.data@.take(i as int)).current,
            decreases self.data@.len() - i,
        {
            let c = self.data[i];
            assert(self.data@.take(i + 1).drop_last() =~= self.data@.take(i as int));
            let step = match current_state {
                None => open_piece(c),
                Some(state) => self.consume(state, c),
            };
            match step {
                Ok(next) => {
                    current_state = next;
                },
                Err(fault) => {
                    proof {
                        fault_ends_scan(self.data@, i + 1);
                    }
                    return Err(fault);
                },
            }
            i += 1;
        }
        assert(self.data@.take(i as int) =~= self.data@);
        match current_state {
            Some(state) => {
                let ghost open = state@;
                let ghost closed = views_of(self.collected_states@);
                self.collected_states.push(state);
                assert(closed.push(open) =~= before + scanned(self.data@).collected.push(open));
            },
            None => {},
        }
        Ok(())
    }

    /// The tokens that the collected pieces stand for.
    pub fn flatten_states(&self) -> (result: Result<Vec<Token>, CompileError>)
        ensures
            match result {
                Ok(tokens) => classified(self@.collected) == Ok::<Seq<Token>, ErrorView>(tokens@),
                Err(fault) => classified(self@.collected) == Err::<Seq<Token>, ErrorView>(fault@),
            },
    {
        let mut tokens: Vec<Token> = Vec::new();
        let mut i: usize = 0;
        let ghost states = views_of(self.collected_states@);
        while i < self.collected_states.len()
            invariant
                i <= self.collected_states@.len(),
                states == views_of(self.collected_states@),
                classified(states.take(i as int)) == Ok::<Seq<Token>, ErrorView>(tokens@),
            decreases self.collected_states@.len() - i,
        {
            assert(states.take(i + 1).drop_last() =~= states.take(i as int));
            match classify(&self.collected_states[i]) {
                Ok(Some(token)) => {
                    tokens.push(token);
                },
                Ok(None) => {},
                Err(fault) => {
                    proof {
                        Self::fault_ends_classifying(states, i + 1);
                    }
                    return Err(fault);
                },
            }
            i += 1;
        }
        assert(states.take(i as int) =~= states);
        Ok(tokens)
    }

    /// Once a piece has a fault, the pieces after it change nothing.
    pub proof fn fault_ends_classifying(states: Seq<StateView>, length: int)
        requires
            0 <= length <= states.len(),
            classified(states.take(length)) is Err,
        ensures
            classified(states) == classified(states.take(length)),
        decreases states.len() - length,
    {
        if length == states.len() {
            assert(states.take(length) =~= states);
        } else {
            assert(states.take(length + 1).drop_last() =~= states.take(length));
            Self::fault_ends_classifying(states, length + 1);
        }
    }

    /// Builds the instructions that `tokens` write and adds them to those
    /// built before, up to the first fault. The tokens that building took
    /// leave the queue.
    pub fn create_bytecode(&mut self, tokens: &mut VecDeque<Token>) -> (result: Result<
        (),
        CompileError,
    >)
        ensures
            final(self)@.data == old(self)@.data,
            final(self)@.collected == old(self)@.collected,
            final(self)@.generated == old(self)@.generated + assembly(old(tokens)@).instructions,
            final(tokens)@ == assembly(old(tokens)@).rest,
            result == match assembly(old(tokens)@).fault {
                Some(fault) => Err::<(), CompileError>(fault),
                None => Ok::<(), CompileError>(()),
            },
    {
        let ghost all = tokens@;
        let ghost before = self.generated@;
        let ghost mut done = Seq::<Instruction>::empty();
        loop
            invariant
                self@.data == old(self)@.data,
                self@.collected == old(self)@.collected,
                self.generated@ == before + done,
                before == old(self)@.generated,
                assembly(all) == assembly(tokens@).after(done),
                all == old(tokens)@,
            decreases tokens@.len(),
        {
            let control = match tokens.pop_front() {
                Some(token) => token,
                None => {
                    return Ok(());
                },
            };
            match control {
                Token::Opcode(opcode) => {
                    match Instruction::generate(opcode, tokens) {
                        Ok(instruction) => {
                            self.generated.instructions.push(instruction);
                            proof {
                                let more = assembly(tokens@);
                                let earlier = done;
                                done = done.push(instruction);
                                assert(earlier + (seq![instruction] + more.instructions) =~= done
                                    + more.instructions);
                            }
                        },
                        Err(fault) => {
                            return Err(fault);
                        },
                    }
                },
                token => {
                    return Err(CompileError::UnexpectedTokenType(token));
                },
            }
        }
    }

    /// The instructions built so far.
    pub fn generated(&self) -> (bytecode: &Bytecode)
        ensures
            bytecode@ == self@.generated,
    {
        &self.generated
    }

    /// Classifies the collected pieces, builds the instructions that they
    /// write, adds them to those built before, and gives the bytes of all
    /// instructions. The first fault ends the pass.
    pub fn assemble(&mut self) -> (result: Result<Vec<u8>, CompileError>)
        ensures
            final(self)@.data == old(self)@.data,
            final(self)@.collected == old(self)@.collected,
            final(self)@.generated == old(self)@.generated + built(
                old(self)@.collected,
            ).instructions,
            match built(old(self)@.collected).fault {
                None => result matches Ok(binary) && binary@ == binary_of(final(self)@.generated),
                Some(fault) => result matches Err(found) && found@ == fault,
            },
    {
        let tokens = match self.flatten_states() {
            Ok(tokens) => tokens,
            Err(fault) => {
                return Err(fault);
            },
        };
        let mut queue: VecDeque<Token> = VecDeque::new();
        let mut i: usize = 0;
        while i < tokens.len()
            invariant
                i <= tokens@.len(),
                queue@ == tokens@.take(i as int),
            decreases tokens@.len() - i,
        {
            queue.push_back(tokens[i]);
            i += 1;
        }
        assert(tokens@.take(i as int) =~= tokens@);
        match self.create_bytecode(&mut queue) {
            Ok(_) => {},
            Err(fault) => {
                return Err(fault);
            },
        }
        Ok(self.generated.create_binary())
    }

    /// Assembles the text: scans it into pieces, which are added to those
    /// collected before, and assembles all the pieces. The first fault ends
    /// the pass.
    pub fn compile(&mut self) -> (result: Result<Vec<u8>, CompileError>)
        ensures
            final(self)@.data == old(self)@.data,
            final(self)@.collected == old(self)@.collected + scanned(old(self)@.data).pieces(),
            final(self)@.generated == old(self)@.generated + compiled(old(self)@).instructions,
            match compiled(old(self)@).fault {
                None => result matches Ok(binary) && binary@ == binary_of(final(self)@.generated),
                Some(fault) => result matches Err(found) && found@ == fault,
            },
    {
        match self.collect_states() {
            Ok(_) => {},
            Err(fault) => {
                return Err(fault);
            },
        }
        self.assemble()
    }
}

} // verus!
