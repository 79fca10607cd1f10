//! The instruction set's enumerations and their numeric and textual encodings.

use vstd::prelude::*;
use vstd::string::StrSliceExecFns;

verus! {

/// The operations of the instruction set.
#[derive(Clone, Copy, Debug, PartialEq, Eq, Structural)]
pub enum Opcode {
    HLT,
    LDI,
    ADD,
    SB,
    LB,
    JNZ,
    JAL,
    XOR,
    SUB,
    SHL,
    SHR,
    JC,
    NOT,
    AND,
    OR,
}

/// Why a number or a text names no operation.
#[derive(Clone, Copy, Debug, PartialEq, Eq, Structural)]
pub enum OpcodeConversionError {
    NoSuchOpcode,
}

/// The registers of the machine. No register carries the number eleven.
#[derive(Clone, Copy, Debug, PartialEq, Eq, Structural)]
pub enum Register {
    R0,
    R1,
    R2,
    R3,
    R4,
    R5,
    R6,
    R7,
    R8,
    R9,
    R10,
    R12,
    R13,
    R14,
    R15,
}

/// Why a number or a text names no register.
#[derive(Clone, Copy, Debug, PartialEq, Eq, Structural)]
pub enum RegisterConversionError {
    NoSuchRegister,
}

/// The operand patterns an operation can have.
#[derive(Clone, Copy, Debug, PartialEq, Eq, Structural)]
pub enum InstructionType {
    NoParam,
    RegImm,
    DoubleReg,
    DoubleRegImm4,
    TripleReg,
}

/// The upper-case form of an ASCII letter; any other character is itself.
pub open spec fn ascii_upper(c: char) -> char {
    if 'a' <= c && c <= 'z' {
        ((c as u8) - 32) as char
    } else {
        c
    }
}

/// `c` is an ASCII letter.
pub open spec fn is_letter(c: char) -> bool {
    ('a' <= c && c <= 'z') || ('A' <= c && c <= 'Z')
}

/// `c` is one of the ten decimal digits.
pub open spec fn is_decimal_digit(c: char) -> bool {
    '0' <= c && c <= '9'
}

/// The number that a decimal digit stands for.
pub open spec fn decimal_value(c: char) -> int {
    c as int - 48
}

/// `text` is the two letters `a`, `b`, in either case.
pub open spec fn is_word2(text: Seq<char>, a: char, b: char) -> bool {
    &&& text.len() == 2
    &&& ascii_upper(text[0]) == a
    &&& ascii_upper(text[1]) == b
}

/// `text` is the three letters `a`, `b`, `c`, in either case.
pub open spec fn is_word3(text: Seq<char>, a: char, b: char, c: char) -> bool {
    &&& text.len() == 3
    &&& ascii_upper(text[0]) == a
    &&& ascii_upper(text[1]) == b
    &&& ascii_upper(text[2]) == c
}

/// The upper-case form of an ASCII letter; any other character is itself.
pub fn to_ascii_upper(c: char) -> (upper: char)
    ensures
        upper == ascii_upper(c),
{
    if 'a' <= c && c <= 'z' {
        let code: u8 = c as u8;
        (code - 32) as char
    } else {
        c
    }
}

/// Whether `c` is an ASCII letter.
pub fn letter(c: char) -> (yes: bool)
    ensures
        yes == is_letter(c),
{
    ('a' <= c && c <= 'z') || ('A' <= c && c <= 'Z')
}

/// The number of a decimal digit, and nothing for any other character.
pub fn decimal_digit(c: char) -> (digit: Option<u8>)
    ensures
        is_decimal_digit(c) ==> digit == Some(decimal_value(c) as u8),
        !is_decimal_digit(c) ==> digit.is_none(),
{
    if '0' <= c && c <= '9' {
        let code: u8 = c as u8;
        Some(code - 48)
    } else {
        None
    }
}

/// The characters of `text` when it has at most `limit` of them.
pub fn short_text(text: &str, limit: usize) -> (letters: Option<Vec<char>>)
    ensures
        text@.len() <= limit ==> letters.is_some() && letters.unwrap()@ == text@,
        text@.len() > limit ==> letters.is_none(),
{
    let length: usize = text.unicode_len();
    if length > limit {
        return None;
    }
    let mut letters: Vec<char> = Vec::new();
    let mut i: usize = 0;
    while i < length
        invariant
            length == text@.len(),
            i <= length,
            letters@ == text@.take(i as int),
        decreases length - i,
    {
        letters.push(text.get_char(i));
        i += 1;
    }
    Some(letters)
}

fn word2(letters: &Vec<char>, a: char, b: char) -> (same: bool)
    ensures
        same == is_word2(letters@, a, b),
{
    letters.len() == 2 && to_ascii_upper(letters[0]) == a && to_ascii_upper(letters[1]) == b
}

fn word3(letters: &Vec<char>, a: char, b: char, c: char) -> (same: bool)
    ensures
        same == is_word3(letters@, a, b, c),
{
    letters.len() == 3 && to_ascii_upper(letters[0]) == a && to_ascii_upper(letters[1]) == b
        && to_ascii_upper(letters[2]) == c
}

impl Opcode {
    /// The four-bit code of the operation.
    pub open spec fn spec_code(self) -> u8 {
        match self {
            Opcode::HLT => 0,
            Opcode::LDI => 1,
            Opcode::ADD => 2,
            Opcode::SB => 3,
            Opcode::LB => 4,
            Opcode::JNZ => 5,
            Opcode::JAL => 6,
            Opcode::XOR => 7,
            Opcode::SUB => 8,
            Opcode::SHL => 9,
            Opcode::SHR => 10,
            Opcode::JC => 11,
            Opcode::NOT => 12,
            Opcode::AND => 13,
            Opcode::OR => 14,
        }
    }

    /// The operation with the given code; fifteen and above name none.
    pub open spec fn of_code(value: u8) -> Result<Opcode, OpcodeConversionError> {
        match value {
            0 => Ok(Opcode::HLT),
            1 => Ok(Opcode::LDI),
            2 => Ok(Opcode::ADD),
            3 => Ok(Opcode::SB),
            4 => Ok(Opcode::LB),
            5 => Ok(Opcode::JNZ),
            6 => Ok(Opcode::JAL),
            7 => Ok(Opcode::XOR),
            8 => Ok(Opcode::SUB),
            9 => Ok(Opcode::SHL),
            10 => Ok(Opcode::SHR),
            11 => Ok(Opcode::JC),
            12 => Ok(Opcode::NOT),
            13 => Ok(Opcode::AND),
            14 => Ok(Opcode::OR),
            _ => Err(OpcodeConversionError::NoSuchOpcode),
        }
    }

    /// The mnemonic of the operation, in upper case.
    pub open spec fn mnemonic(self) -> Seq<char> {
        match self {
            Opcode::HLT => seq!['H', 'L', 'T'],
            Opcode::LDI => seq!['L', 'D', 'I'],
            Opcode::ADD => seq!['A', 'D', 'D'],
            Opcode::SB => seq!['S', 'B'],
            Opcode::LB => seq!['L', 'B'],
            Opcode::JNZ => seq!['J', 'N', 'Z'],
            Opcode::JAL => seq!['J', 'A', 'L'],
            Opcode::XOR => seq!['X', 'O', 'R'],
            Opcode::SUB => seq!['S', 'U', 'B'],
            Opcode::SHL => seq!['S', 'H', 'L'],
            Opcode::SHR => seq!['S', 'H', 'R'],
            Opcode::JC => seq!['J', 'C'],
            Opcode::NOT => seq!['N', 'O', 'T'],
            Opcode::AND => seq!['A', 'N', 'D'],
            Opcode::OR => seq!['O', 'R'],
        }
    }

    /// The operation that `text` names, in either case; `NoSuchOpcode` for any
    /// other text.
    pub open spec fn of_mnemonic(text: Seq<char>) -> Result<Opcode, OpcodeConversionError> {
        if is_word3(text, 'H', 'L', 'T') {
            Ok(Opcode::HLT)
        } else if is_word3(text, 'L', 'D', 'I') {
            Ok(Opcode::LDI)
        } else if is_word3(text, 'A', 'D', 'D') {
            Ok(Opcode::ADD)
        } else if is_word2(text, 'S', 'B') {
            Ok(Opcode::SB)
        } else if is_word2(text, 'L', 'B') {
            Ok(Opcode::LB)
        } else if is_word3(text, 'J', 'N', 'Z') {
            Ok(Opcode::JNZ)
        } else if is_word3(text, 'J', 'A', 'L') {
            Ok(Opcode::JAL)
        } else if is_word3(text, 'X', 'O', 'R') {
            Ok(Opcode::XOR)
        } else if is_word3(text, 'S', 'U', 'B') {
            Ok(Opcode::SUB)
        } else if is_word3(text, 'S', 'H', 'L') {
            Ok(Opcode::SHL)
        } else if is_word3(text, 'S', 'H', 'R') {
            Ok(Opcode::SHR)
        } else if is_word2(text, 'J', 'C') {
            Ok(Opcode::JC)
        } else if is_word3(text, 'N', 'O', 'T') {
            Ok(Opcode::NOT)
        } else if is_word3(text, 'A', 'N', 'D') {
            Ok(Opcode::AND)
        } else if is_word2(text, 'O', 'R') {
            Ok(Opcode::OR)
        } else {
            Err(OpcodeConversionError::NoSuchOpcode)
        }
    }

    /// The four-bit code of the operation.
    #[verifier::when_used_as_spec(spec_code)]
    pub fn code(self) -> (code: u8)
        ensures
            code == self.spec_code(),
            code <= 14,
    {
        match self {
            Opcode::HLT => 0,
            Opcode::LDI => 1,
            Opcode::ADD => 2,
            Opcode::SB => 3,
            Opcode::LB => 4,
            Opcode::JNZ => 5,
            Opcode::JAL => 6,
            Opcode::XOR => 7,
            Opcode::SUB => 8,
            Opcode::SHL => 9,
            Opcode::SHR => 10,
            Opcode::JC => 11,
            Opcode::NOT => 12,
            Opcode::AND => 13,
            Opcode::OR => 14,
        }
    }

    /// The operation that `letters` name, in either case.
    pub fn lookup(letters: &Vec<char>) -> (result: Result<Opcode, OpcodeConversionError>)
        ensures
            result == Opcode::of_mnemonic(letters@),
    {
        if word3(letters, 'H', 'L', 'T') {
            Ok(Opcode::HLT)
        } else if word3(letters, 'L', 'D', 'I') {
            Ok(Opcode::LDI)
        } else if word3(letters, 'A', 'D', 'D') {
            Ok(Opcode::ADD)
        } else if word2(letters, 'S', 'B') {
            Ok(Opcode::SB)
        } else if word2(letters, 'L', 'B') {
            Ok(Opcode::LB)
        } else if word3(letters, 'J', 'N', 'Z') {
            Ok(Opcode::JNZ)
        } else if word3(letters, 'J', 'A', 'L') {
            Ok(Opcode::JAL)
        } else if word3(letters, 'X', 'O', 'R') {
            Ok(Opcode::XOR)
        } else if word3(letters, 'S', 'U', 'B') {
            Ok(Opcode::SUB)
        } else if word3(letters, 'S', 'H', 'L') {
            Ok(Opcode::SHL)
        } else if word3(letters, 'S', 'H', 'R') {
            Ok(Opcode::SHR)
        } else if word2(letters, 'J', 'C') {
            Ok(Opcode::JC)
        } else if word3(letters, 'N', 'O', 'T') {
            Ok(Opcode::NOT)
        } else if word3(letters, 'A', 'N', 'D') {
            Ok(Opcode::AND)
        } else if word2(letters, 'O', 'R') {
            Ok(Opcode::OR)
        } else {
            Err(OpcodeConversionError::NoSuchOpcode)
        }
    }

    /// Every operation is found again from its code.
    pub proof fn code_round_trip(self)
        ensures
            Opcode::of_code(self.spec_code()) == Ok::<Opcode, OpcodeConversionError>(self),
            self.spec_code() <= 14,
    {
    }

    /// Every code up to fourteen names an operation that has that code, and no
    /// larger number names one.
    pub proof fn of_code_total(value: u8)
        ensures
            value <= 14 ==> Opcode::of_code(value).is_ok() && Opcode::of_code(
                value,
            ).unwrap().spec_code() == value,
            value > 14 ==> Opcode::of_code(value) == Err::<Opcode, OpcodeConversionError>(
                OpcodeConversionError::NoSuchOpcode,
            ),
    {
    }

    /// A text names an operation exactly when its upper-case form is the
    /// mnemonic of that operation.
    pub proof fn of_mnemonic_exact(text: Seq<char>, opcode: Opcode)
        ensures
            Opcode::of_mnemonic(text) == Ok::<Opcode, OpcodeConversionError>(opcode)
                <==> text.map_values(|c: char| ascii_upper(c)) == opcode.mnemonic(),
    {
        let upper = text.map_values(|c: char| ascii_upper(c));
        if Opcode::of_mnemonic(text) == Ok::<Opcode, OpcodeConversionError>(opcode) {
            assert(upper =~= opcode.mnemonic());
        }
        if upper == opcode.mnemonic() {
            assert(upper.len() == text.len());
        }
    }

    /// Every operation is found again from its mnemonic.
    pub proof fn mnemonic_round_trip(self)
        ensures
            Opcode::of_mnemonic(self.mnemonic()) == Ok::<Opcode, OpcodeConversionError>(self),
    {
    }
}

impl TryFrom<u8> for Opcode {
    type Error = OpcodeConversionError;

    /// The operation with the given code.
    fn try_from(value: u8) -> (result: Result<Self, Self::Error>) {
        match value {
            0 => Ok(Opcode::HLT),
            1 => Ok(Opcode::LDI),
            2 => Ok(Opcode::ADD),
            3 => Ok(Opcode::SB),
            4 => Ok(Opcode::LB),
            5 => Ok(Opcode::JNZ),
            6 => Ok(Opcode::JAL),
            7 => Ok(Opcode::XOR),
            8 => Ok(Opcode::SUB),
            9 => Ok(Opcode::SHL),
            10 => Ok(Opcode::SHR),
            11 => Ok(Opcode::JC),
            12 => Ok(Opcode::NOT),
            13 => Ok(Opcode::AND),
            14 => Ok(Opcode::OR),
            _ => Err(OpcodeConversionError::NoSuchOpcode),
        }
    }
}

impl vstd::std_specs::convert::TryFromSpecImpl<u8> for Opcode {
    open spec fn obeys_try_from_spec() -> bool {
        true
    }

    open spec fn try_from_spec(value: u8) -> Result<Self, Self::Error> {
        Opcode::of_code(value)
    }
}

impl<'a> TryFrom<&'a str> for Opcode {
    type Error = OpcodeConversionError;

    /// The operation that `value` names, in either case.
    fn try_from(value: &'a str) -> (result: Result<Self, Self::Error>) {
        match short_text(value, 3) {
            Some(letters) => Opcode::lookup(&letters),
            None => Err(OpcodeConversionError::NoSuchOpcode),
        }
    }
}

impl<'a> vstd::std_specs::convert::TryFromSpecImpl<&'a str> for Opcode {
    open spec fn obeys_try_from_spec() -> bool {
        true
    }

    open spec fn try_from_spec(value: &'a str) -> Result<Self, Self::Error> {
        Opcode::of_mnemonic(value@)
    }
}

impl Register {
    /// The four-bit code of the register.
    pub open spec fn spec_code(self) -> u8 {
        match self {
            Register::R0 => 0,
            Register::R1 => 1,
            Register::R2 => 2,
            Register::R3 => 3,
            Register::R4 => 4,
            Register::R5 => 5,
            Register::R6 => 6,
            Register::R7 => 7,
            Register::R8 => 8,
            Register::R9 => 9,
            Register::R10 => 10,
            Register::R12 => 12,
            Register::R13 => 13,
            Register::R14 => 14,
            Register::R15 => 15,
        }
    }

    /// The register with the given code; eleven, and sixteen and above, name
    /// none.
    pub open spec fn of_code(value: u8) -> Result<Register, RegisterConversionError> {
        match value {
            0 => Ok(Register::R0),
            1 => Ok(Register::R1),
            2 => Ok(Register::R2),
            3 => Ok(Register::R3),
            4 => Ok(Register::R4),
            5 => Ok(Register::R5),
            6 => Ok(Register::R6),
            7 => Ok(Register::R7),
            8 => Ok(Register::R8),
            9 => Ok(Register::R9),
            10 => Ok(Register::R10),
            12 => Ok(Register::R12),
            13 => Ok(Register::R13),
            14 => Ok(Register::R14),
            15 => Ok(Register::R15),
            _ => Err(RegisterConversionError::NoSuchRegister),
        }
    }

    /// The register that `text` names: the letter `r`, in either case, and one
    /// or two decimal digits that give its code.
    pub open spec fn of_mnemonic(text: Seq<char>) -> Result<Register, RegisterConversionError> {
        if text.len() == 2 && ascii_upper(text[0]) == 'R' && is_decimal_digit(text[1]) {
            Register::of_code(decimal_value(text[1]) as u8)
        } else if text.len() == 3 && ascii_upper(text[0]) == 'R' && is_decimal_digit(text[1])
            && is_decimal_digit(text[2]) {
            Register::of_code((10 * decimal_value(text[1]) + decimal_value(text[2])) as u8)
        } else {
            Err(RegisterConversionError::NoSuchRegister)
        }
    }

    /// The four-bit code of the register.
    #[verifier::when_used_as_spec(spec_code)]
    pub fn code(self) -> (code: u8)
        ensures
            code == self.spec_code(),
            code <= 15,
            code != 11,
    {
        match self {
            Register::R0 => 0,
            Register::R1 => 1,
            Register::R2 => 2,
            Register::R3 => 3,
            Register::R4 => 4,
            Register::R5 => 5,
            Register::R6 => 6,
            Register::R7 => 7,
            Register::R8 => 8,
            Register::R9 => 9,
            Register::R10 => 10,
            Register::R12 => 12,
            Register::R13 => 13,
            Register::R14 => 14,
            Register::R15 => 15,
        }
    }

    /// The register that `letters` name.
    pub fn lookup(letters: &Vec<char>) -> (result: Result<Register, RegisterConversionError>)
        ensures
            result == Register::of_mnemonic(letters@),
    {
        let length: usize = letters.len();
        if length < 2 || length > 3 {
            return Err(RegisterConversionError::NoSuchRegister);
        }
        if to_ascii_upper(letters[0]) != 'R' {
            return Err(RegisterConversionError::NoSuchRegister);
        }
        let mut number: u8 = match decimal_digit(letters[1]) {
            Some(digit) => digit,
            None => return Err(RegisterConversionError::NoSuchRegister),
        };
        if length == 3 {
            match decimal_digit(letters[2]) {
                Some(digit) => {
                    number = number * 10 + digit;
                },
                None => return Err(RegisterConversionError::NoSuchRegister),
            }
        }
        Register::try_from(number)
    }

    /// Every register is found again from its code.
    pub proof fn code_round_trip(self)
        ensures
            Register::of_code(self.spec_code()) == Ok::<Register, RegisterConversionError>(self),
            self.spec_code() <= 15,
            self.spec_code() != 11,
    {
    }

    /// Every code up to fifteen but eleven names a register that has that code;
    /// eleven and the numbers above fifteen name none.
    pub proof fn of_code_total(value: u8)
        ensures
            value <= 15 && value != 11 ==> Register::of_code(value).is_ok() && Register::of_code(
                value,
            ).unwrap().spec_code() == value,
            value > 15 || value == 11 ==> Register::of_code(value) == Err::<
                Register,
                RegisterConversionError,
            >(RegisterConversionError::NoSuchRegister),
    {
    }
}

impl TryFrom<u8> for Register {
    type Error = RegisterConversionError;

    /// The register with the given code.
    fn try_from(value: u8) -> (result: Result<Self, Self::Error>) {
        match value {
            0 => Ok(Register::R0),
            1 => Ok(Register::R1),
            2 => Ok(Register::R2),
            3 => Ok(Register::R3),
            4 => Ok(Register::R4),
            5 => Ok(Register::R5),
            6 => Ok(Register::R6),
            7 => Ok(Register::R7),
            8 => Ok(Register::R8),
            9 => Ok(Register::R9),
            10 => Ok(Register::R10),
            12 => Ok(Register::R12),
            13 => Ok(Register::R13),
            14 => Ok(Register::R14),
            15 => Ok(Register::R15),
            _ => Err(RegisterConversionError::NoSuchRegister),
        }
    }
}

impl vstd::std_specs::convert::TryFromSpecImpl<u8> for Register {
    open spec fn obeys_try_from_spec() -> bool {
        true
    }

    open spec fn try_from_spec(value: u8) -> Result<Self, Self::Error> {
        Register::of_code(value)
    }
}

impl<'a> TryFrom<&'a str> for Register {
    type Error = RegisterConversionError;

    /// The register that `value` names.
    fn try_from(value: &'a str) -> (result: Result<Self, Self::Error>) {
        match short_text(value, 3) {
            Some(letters) => Register::lookup(&letters),
            None => Err(RegisterConversionError::NoSuchRegister),
        }
    }
}

impl<'a> vstd::std_specs::convert::TryFromSpecImpl<&'a str> for Register {
    open spec fn obeys_try_from_spec() -> bool {
        true
    }

    open spec fn try_from_spec(value: &'a str) -> Result<Self, Self::Error> {
        Register::of_mnemonic(value@)
    }
}

} // verus!
