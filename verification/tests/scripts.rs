//! Tests for the irregular script formatters and the table-based Roman
//! module.

use nominals::roman::{RomanLower, RomanUpper};
use nominals::{Error, Ethiopic, Hebrew, Nominal, NominalSystem};

#[test]
fn hebrew() {
    // A multi-letter rendering carries one gershayim before its final
    // letter.
    assert_eq!(
        Hebrew.format_nominal(997_u32).as_string(),
        "\u{5EA}\u{5EA}\u{5E7}\u{5E6}\u{5F4}\u{5D6}"
    );
    assert_eq!(
        Hebrew.format_nominal(1_u32).as_string(),
        "\u{5F3}\u{5D0}\u{5F4}"
    );
    assert_eq!(
        Hebrew.format_nominal(15_u32).as_string(),
        "\u{5D8}\u{5F4}\u{5D5}"
    );
    assert_eq!(
        Hebrew.format_nominal(16_u32).as_string(),
        "\u{5D8}\u{5F4}\u{5D6}"
    );
    assert_eq!(Hebrew.try_format_nominal(0_u32), Err(Error::NoZeroSymbol));
}

#[test]
fn hebrew_internal_mark() {
    // The single gershayim goes immediately before the final letter of any
    // rendering of two or more letters.
    assert_eq!(
        Hebrew.format_nominal(14_u32).as_string(),
        "\u{5D9}\u{5F4}\u{5D3}"
    );
    assert_eq!(
        Hebrew.format_nominal(21_u32).as_string(),
        "\u{5DB}\u{5F4}\u{5D0}"
    );
    assert_eq!(
        Hebrew.format_nominal(800_u32).as_string(),
        "\u{5EA}\u{5F4}\u{5EA}"
    );
}

#[test]
fn hebrew_idiom_inside_larger_value() {
    // 115 ends in the idiomatic 15 pair after the hundreds letter.
    assert_eq!(
        Hebrew.format_nominal(115_u32).as_string(),
        "\u{5E7}\u{5D8}\u{5F4}\u{5D5}"
    );
}

#[test]
fn ethiopic() {
    assert_eq!(1_u32.to_nominal(&Ethiopic).as_string(), "\u{1369}");
    assert_eq!(100_u32.to_nominal(&Ethiopic).as_string(), "\u{137B}");
    assert_eq!(101_u32.to_nominal(&Ethiopic).as_string(), "\u{137B}\u{1369}");
    assert_eq!(
        78_010_092_u32.to_nominal(&Ethiopic).as_string(),
        "\u{1378}\u{1370}\u{137B}\u{1369}\u{137C}\u{137A}\u{136A}"
    );
    assert_eq!(
        780_100_000_092_u64.to_nominal(&Ethiopic).as_string(),
        "\u{1378}\u{1370}\u{137B}\u{1369}\u{137C}\u{137C}\u{137A}\u{136A}"
    );
}

#[test]
fn ethiopic_rejects_zero() {
    assert_eq!(Ethiopic.try_format_nominal(0_u32), Err(Error::NoZeroSymbol));
    assert_eq!(Ethiopic.format_nominal(0_u32).as_string(), "0");
}

#[test]
fn roman_roman() {
    assert_eq!(0_u32.to_nominal(&RomanUpper).as_string(), "N");
    assert_eq!(1_u32.to_nominal(&RomanUpper).as_string(), "I");
    assert_eq!(2_u32.to_nominal(&RomanUpper).as_string(), "II");
    assert_eq!(3_u32.to_nominal(&RomanUpper).as_string(), "III");
    assert_eq!(4_u32.to_nominal(&RomanUpper).as_string(), "IV");
    assert_eq!(5_u32.to_nominal(&RomanUpper).as_string(), "V");
    assert_eq!(0_u32.to_nominal(&RomanLower).as_string(), "n");
    assert_eq!(1_u32.to_nominal(&RomanLower).as_string(), "i");
    assert_eq!(2_u32.to_nominal(&RomanLower).as_string(), "ii");
    assert_eq!(3_u32.to_nominal(&RomanLower).as_string(), "iii");
    assert_eq!(4_u32.to_nominal(&RomanLower).as_string(), "iv");
    assert_eq!(5_u32.to_nominal(&RomanLower).as_string(), "v");
    assert_eq!(4000_u32.to_nominal(&RomanLower).as_string(), "i\u{305}v\u{305}");
    assert_eq!(
        2_000_000_u32.to_nominal(&RomanLower).as_string(),
        "m\u{305}m\u{305}"
    );
}

#[test]
fn roman_long_test() {
    assert_eq!(
        63_000_000_u32.to_nominal(&RomanLower).as_string(),
        "m\u{305}".repeat(63)
    );
}
