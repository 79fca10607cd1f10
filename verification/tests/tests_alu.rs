use mrt_cpu::machine::alu;
use mrt_cpu::machine::flags::Flags;

#[test]
fn alu_is_signed() {
    let mut value = 0u8;
    let mut result = alu::is_signed(value);

    assert!(!result);

    value = -1i8 as u8;
    result = alu::is_signed(value);

    assert!(result);
}

#[test]
fn alu_flags_zero() {
    let result = alu::sub(1, 1);
    assert!(result.flags.is_set(Flags::Zero));

    let result = alu::sub(1, 0);
    assert!(!result.flags.is_set(Flags::Zero));
}

#[test]
fn alu_flags_carry() {
    let result = alu::add(255, 255);
    assert!(result.flags.is_set(Flags::Carry));

    let result = alu::add(1, 1);
    assert!(!result.flags.is_set(Flags::Carry));
}

#[test]
fn alu_flags_sign() {
    let result = alu::sub(0, 1);
    assert!(result.flags.is_set(Flags::Sign));

    let result = alu::sub(0, 0);
    assert!(!result.flags.is_set(Flags::Sign));
}

#[test]
fn alu_flags_overflow() {
    let result = alu::add(127, 1);
    assert!(result.flags.is_set(Flags::Overflow));

    let result = alu::sub(0, 0);
    assert!(!result.flags.is_set(Flags::Overflow));
}

fn flags_of(result: &alu::Result) -> Vec<Flags> {
    result.flags.get_flags()
}

#[test]
fn alu_add_wraps_and_carries() {
    let result = alu::add(255, 1);
    assert_eq!(result.value, 0);
    assert_eq!(flags_of(&result), vec![Flags::Zero, Flags::Carry]);

    let result = alu::add(127, 1);
    assert_eq!(result.value, 128);
    assert_eq!(flags_of(&result), vec![Flags::Sign, Flags::Overflow]);

    let result = alu::add(128, 128);
    assert_eq!(result.value, 0);
    assert_eq!(flags_of(&result), vec![Flags::Zero, Flags::Carry, Flags::Overflow]);

    let result = alu::add(2, 3);
    assert_eq!(result.value, 5);
    assert!(flags_of(&result).is_empty());
}

#[test]
fn alu_sub_borrows() {
    let result = alu::sub(1, 1);
    assert_eq!(result.value, 0);
    assert_eq!(flags_of(&result), vec![Flags::Zero]);

    let result = alu::sub(0, 1);
    assert_eq!(result.value, 255);
    assert_eq!(flags_of(&result), vec![Flags::Carry, Flags::Sign, Flags::Overflow]);

    let result = alu::sub(200, 100);
    assert_eq!(result.value, 100);
    assert!(flags_of(&result).is_empty());

    let result = alu::sub(130, 129);
    assert_eq!(result.value, 1);
    assert_eq!(flags_of(&result), vec![Flags::Overflow]);
}

#[test]
fn alu_bitwise_operations_clear_carry() {
    let result = alu::and(0b1100, 0b1010);
    assert_eq!(result.value, 0b1000);
    assert!(flags_of(&result).is_empty());

    let result = alu::or(0b1100, 0b1010);
    assert_eq!(result.value, 0b1110);
    assert!(flags_of(&result).is_empty());

    let result = alu::xor(0b1100, 0b1010);
    assert_eq!(result.value, 0b0110);
    assert!(flags_of(&result).is_empty());

    let result = alu::xor(77, 77);
    assert_eq!(result.value, 0);
    assert_eq!(flags_of(&result), vec![Flags::Zero]);

    let result = alu::xor(200, 200);
    assert_eq!(result.value, 0);
    assert_eq!(flags_of(&result), vec![Flags::Zero, Flags::Overflow]);

    let result = alu::or(0x80, 0x01);
    assert_eq!(result.value, 0x81);
    assert_eq!(flags_of(&result), vec![Flags::Sign]);

    let result = alu::and(0xF0, 0x8F);
    assert_eq!(result.value, 0x80);
    assert_eq!(flags_of(&result), vec![Flags::Sign]);
}

#[test]
fn alu_shifts_take_the_count_modulo_eight() {
    let result = alu::shl(0x81, 1);
    assert_eq!(result.value, 0x02);
    assert!(flags_of(&result).is_empty());

    let result = alu::shl(1, 7);
    assert_eq!(result.value, 0x80);
    assert_eq!(flags_of(&result), vec![Flags::Sign, Flags::Overflow]);

    let result = alu::shl(3, 8);
    assert_eq!(result.value, 3);
    assert_eq!(flags_of(&result), vec![Flags::Carry]);

    let result = alu::shl(3, 9);
    assert_eq!(result.value, 6);
    assert_eq!(flags_of(&result), vec![Flags::Carry]);

    let result = alu::shr(0x81, 1);
    assert_eq!(result.value, 0x40);
    assert!(flags_of(&result).is_empty());

    let result = alu::shr(0xFF, 15);
    assert_eq!(result.value, 1);
    assert_eq!(flags_of(&result), vec![Flags::Carry]);

    let result = alu::shr(0x10, 0);
    assert_eq!(result.value, 0x10);
    assert!(flags_of(&result).is_empty());

    let result = alu::shr(1, 1);
    assert_eq!(result.value, 0);
    assert_eq!(flags_of(&result), vec![Flags::Zero]);
}
