//! Arithmetic and logic on bytes. Every operation gives a value and a fresh set
//! of flags.

use vstd::prelude::*;
use crate::machine::flags::{Flags, FlagsRegister, FlagsView};

verus! {

/// The outcome of one operation.
pub struct Result {
    pub value: u8,
    pub flags: FlagsRegister,
}

/// What an outcome holds: the value and the truth value of each flag.
pub struct Outcome {
    pub value: u8,
    pub flags: FlagsView,
}

impl View for Result {
    type V = Outcome;

    open spec fn view(&self) -> Outcome {
        Outcome { value: self.value, flags: self.flags@ }
    }
}

/// Whether the top bit of `byte` is set.
pub open spec fn sign_bit(byte: u8) -> bool {
    byte >= 128
}

/// The outcome of an operation on `a` and `b` that gave `value` and reported
/// `carry`. Zero stands for a zero value, Sign for its top bit, and Overflow is
/// set where the operands agree in their top bit and the value differs from
/// them in it.
pub open spec fn outcome_of(a: u8, b: u8, value: u8, carry: bool) -> Outcome {
    Outcome {
        value,
        flags: FlagsView {
            zero: value == 0,
            carry,
            sign: sign_bit(value),
            overflow: sign_bit(a) == sign_bit(b) && sign_bit(a) != sign_bit(value),
        },
    }
}

/// The sum reduced to a byte; Carry reports a sum above 255.
pub open spec fn spec_add(a: u8, b: u8) -> Outcome {
    outcome_of(a, b, ((a + b) % 256) as u8, a + b > 255)
}

/// The difference reduced to a byte; Carry reports a borrow.
pub open spec fn spec_sub(a: u8, b: u8) -> Outcome {
    outcome_of(a, b, ((a - b) % 256) as u8, a < b)
}

/// The bitwise conjunction; Carry is clear.
pub open spec fn spec_and(a: u8, b: u8) -> Outcome {
    outcome_of(a, b, a & b, false)
}

/// The bitwise disjunction; Carry is clear.
pub open spec fn spec_or(a: u8, b: u8) -> Outcome {
    outcome_of(a, b, a | b, false)
}

/// The bitwise exclusive disjunction; Carry is clear.
pub open spec fn spec_xor(a: u8, b: u8) -> Outcome {
    outcome_of(a, b, a ^ b, false)
}

/// `a` shifted left by `b` modulo eight places, the bits that leave the byte
/// lost; Carry reports a count of eight or more.
pub open spec fn spec_shl(a: u8, b: u8) -> Outcome {
    outcome_of(a, b, a << (b % 8), b >= 8)
}

/// `a` shifted right by `b` modulo eight places; Carry reports a count of
/// eight or more.
pub open spec fn spec_shr(a: u8, b: u8) -> Outcome {
    outcome_of(a, b, a >> (b % 8), b >= 8)
}

/// Whether the top bit of `byte` is set.
#[verifier::when_used_as_spec(sign_bit)]
pub fn is_signed(byte: u8) -> (signed: bool)
    ensures
        signed == sign_bit(byte),
{
    assert((byte & 0b1000_0000 > 0) == (byte >= 128)) by (bit_vector);
    (byte & 0b1000_0000) > 0
}

fn flags_for_operation(a: u8, b: u8, result: (u8, bool)) -> (flags: FlagsRegister)
    ensures
        flags@ == outcome_of(a, b, result.0, result.1).flags,
{
    let mut flags = FlagsRegister::new();
    if result.0 == 0 {
        flags.set(Flags::Zero);
    }
    if result.1 {
        flags.set(Flags::Carry);
    }
    if is_signed(result.0) {
        flags.set(Flags::Sign);
    }
    if is_signed(a) == is_signed(b) && is_signed(a) != is_signed(result.0) {
        flags.set(Flags::Overflow);
    }
    flags
}

/// Adds two bytes.
pub fn add(a: u8, b: u8) -> (result: Result)
    ensures
        result@ == spec_add(a, b),
{
    let wide: u16 = a as u16 + b as u16;
    let value: u8 = (wide % 256) as u8;
    Result { value, flags: flags_for_operation(a, b, (value, wide > 255)) }
}

/// Subtracts `b` from `a`.
pub fn sub(a: u8, b: u8) -> (result: Result)
    ensures
        result@ == spec_sub(a, b),
{
    let value: u8 = if a >= b {
        a - b
    } else {
        (256 - (b as u16 - a as u16)) as u8
    };
    Result { value, flags: flags_for_operation(a, b, (value, a < b)) }
}

/// The bitwise conjunction of two bytes.
pub fn and(a: u8, b: u8) -> (result: Result)
    ensures
        result@ == spec_and(a, b),
{
    let value: u8 = a & b;
    Result { value, flags: flags_for_operation(a, b, (value, false)) }
}

/// The bitwise disjunction of two bytes.
pub fn or(a: u8, b: u8) -> (result: Result)
    ensures
        result@ == spec_or(a, b),
{
    let value: u8 = a | b;
    Result { value, flags: flags_for_operation(a, b, (value, false)) }
}

/// The bitwise exclusive disjunction of two bytes.
pub fn xor(a: u8, b: u8) -> (result: Result)
    ensures
        result@ == spec_xor(a, b),
{
    let value: u8 = a ^ b;
    Result { value, flags: flags_for_operation(a, b, (value, false)) }
}

/// Shifts `a` left by `b` places, the count taken modulo eight.
pub fn shl(a: u8, b: u8) -> (result: Result)
    ensures
        result@ == spec_shl(a, b),
{
    let places: u8 = b % 8;
    let value: u8 = a << places;
    Result { value, flags: flags_for_operation(a, b, (value, b >= 8)) }
}

/// Shifts `a` right by `b` places, the count taken modulo eight.
pub fn shr(a: u8, b: u8) -> (result: Result)
    ensures
        result@ == spec_shr(a, b),
{
    let places: u8 = b % 8;
    let value: u8 = a >> places;
    Result { value, flags: flags_for_operation(a, b, (value, b >= 8)) }
}

/// A left shift by fewer than eight places multiplies by a power of two and
/// keeps the low byte; a right shift divides by that power.
pub proof fn shift_is_arithmetic(a: u8)
    ensures
        spec_shl(a, 0).value == a && spec_shr(a, 0).value == a,
        spec_shl(a, 1).value == (a * 2) % 256 && spec_shr(a, 1).value == a / 2,
        spec_shl(a, 2).value == (a * 4) % 256 && spec_shr(a, 2).value == a / 4,
        spec_shl(a, 3).value == (a * 8) % 256 && spec_shr(a, 3).value == a / 8,
        spec_shl(a, 4).value == (a * 16) % 256 && spec_shr(a, 4).value == a / 16,
        spec_shl(a, 5).value == (a * 32) % 256 && spec_shr(a, 5).value == a / 32,
        spec_shl(a, 6).value == (a * 64) % 256 && spec_shr(a, 6).value == a / 64,
        spec_shl(a, 7).value == (a * 128) % 256 && spec_shr(a, 7).value == a / 128,
{
    assert(a << 0u8 == a && a >> 0u8 == a) by (bit_vector);
    assert(a << 1u8 == (a * 2) % 256 && a >> 1u8 == a / 2) by (bit_vector);
    assert(a << 2u8 == (a * 4) % 256 && a >> 2u8 == a / 4) by (bit_vector);
    assert(a << 3u8 == (a * 8) % 256 && a >> 3u8 == a / 8) by (bit_vector);
    assert(a << 4u8 == (a * 16) % 256 && a >> 4u8 == a / 16) by (bit_vector);
    assert(a << 5u8 == (a * 32) % 256 && a >> 5u8 == a / 32) by (bit_vector);
    assert(a << 6u8 == (a * 64) % 256 && a >> 6u8 == a / 64) by (bit_vector);
    assert(a << 7u8 == (a * 128) % 256 && a >> 7u8 == a / 128) by (bit_vector);
}

/// A count of eight or more shifts as the count less eight does.
pub proof fn shift_count_wraps(a: u8, b: u8)
    requires
        b >= 8,
    ensures
        spec_shl(a, b).value == spec_shl(a, (b - 8) as u8).value,
        spec_shr(a, b).value == spec_shr(a, (b - 8) as u8).value,
{
}

} // verus!
