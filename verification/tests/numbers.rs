//! Macro numeric literal parsing.

use ifcgen::numbers::{parse_macro_number, MacroNumber};

#[test]
fn hex_unsigned_long_parses_to_unsigned_32() {
    // 0x2A with an unsigned-long suffix is the unsigned 32-bit value 42
    assert_eq!(parse_macro_number("0x2AUL").unwrap(), MacroNumber::U32(42));
}

#[test]
fn long_long_parses_to_signed_64() {
    assert_eq!(parse_macro_number("123LL").unwrap(), MacroNumber::I64(123));
}

#[test]
fn most_negative_32_bit_value_round_trips() {
    // the most negative 32-bit value arrives as its unsigned spelling and
    // must come through without overflowing on negation
    let v = parse_macro_number("2147483648").unwrap();
    assert_eq!(v, MacroNumber::I32(i32::MIN));
    if let MacroNumber::I32(x) = v {
        assert_eq!(x.wrapping_neg(), i32::MIN);
    } else {
        panic!("expected a 32-bit value");
    }
}

#[test]
fn separators_are_skipped() {
    assert_eq!(parse_macro_number("1'000'000").unwrap(), MacroNumber::I32(1_000_000));
}

#[test]
fn unsigned_long_long_parses_to_unsigned_64() {
    assert_eq!(
        parse_macro_number("0xFFFFFFFFFFFFFFFFULL").unwrap(),
        MacroNumber::U64(u64::MAX)
    );
}

#[test]
fn hex_digits_without_prefix_are_rejected() {
    assert!(parse_macro_number("12AB").is_err());
}

#[test]
fn too_many_long_suffixes_are_rejected() {
    assert!(parse_macro_number("5LLL").is_err());
}

#[test]
fn empty_spelling_is_rejected() {
    assert!(parse_macro_number("").is_err());
    assert!(parse_macro_number("UL").is_err());
}
