//! Tests for the additive (greedy symbol table) systems.

use nominals::{AdditiveSet, ArmenianLower, ArmenianUpper, Error, Georgian, Nominal, NominalSystem};
use nominals::{HangeulFormal, HangeulInformal, HanjaFormal, JapaneseFormal, JapaneseInformal};
use nominals::{RomanLower, RomanUpper};

#[test]
fn additive_roman() {
    assert_eq!(0_u32.to_nominal(&RomanUpper).as_string(), "N");
    assert_eq!(1_u32.to_nominal(&RomanUpper).as_string(), "I");
    assert_eq!(2_u32.to_nominal(&RomanUpper).as_string(), "II");
    assert_eq!(3_u32.to_nominal(&RomanUpper).as_string(), "III");
    assert_eq!(4_u32.to_nominal(&RomanUpper).as_string(), "IV");
    assert_eq!(5_u32.to_nominal(&RomanUpper).as_string(), "V");
    assert_eq!(0_u32.to_nominal(&RomanLower).as_string(), "n");
    assert_eq!(1_u32.to_nominal(&RomanLower).as_string(), "i");
    assert_eq!(2_u32.to_nominal(&RomanLower).as_string(), "ii");
    assert_eq!(3_u32.to_nominal(&RomanLower).as_string(), "iii");
    assert_eq!(4_u32.to_nominal(&RomanLower).as_string(), "iv");
    assert_eq!(5_u32.to_nominal(&RomanLower).as_string(), "v");
    assert_eq!(4000_u32.to_nominal(&RomanLower).as_string(), "i\u{305}v\u{305}");
    assert_eq!(
        2_000_000_u32.to_nominal(&RomanLower).as_string(),
        "m\u{305}m\u{305}"
    );
}

#[test]
fn additive_long_test() {
    assert_eq!(
        63_000_000_u32.to_nominal(&RomanLower).as_string(),
        "m\u{305}".repeat(63)
    );
}

#[test]
fn additive_set_basics() {
    let set = AdditiveSet::new(vec![("X", 10), ("V", 5), ("I", 1)]);
    assert_eq!(set.format_nominal(7_u32).as_string(), "VII");
    assert_eq!(set.format_nominal(32_u32).as_string(), "XXXII");
    assert_eq!(set.try_format_nominal(0_u32), Err(Error::NoZeroSymbol));
    // The infallible entry point renders the missing zero as "0".
    assert_eq!(set.format_nominal(0_u32).as_string(), "0");

    let with_zero = AdditiveSet::new(vec![("X", 10), ("I", 1), ("Z", 0)]);
    assert_eq!(with_zero.format_nominal(0_u32).as_string(), "Z");
    assert_eq!(with_zero.format_nominal(11_u32).as_string(), "XI");
}

#[test]
fn armenian_has_no_zero() {
    assert_eq!(ArmenianUpper.try_format_nominal(0_u32), Err(Error::NoZeroSymbol));
    assert_eq!(1_u32.to_nominal(&ArmenianUpper).as_string(), "\u{531} ");
    assert_eq!(Georgian.try_format_nominal(0_u32), Err(Error::NoZeroSymbol));
    assert_eq!(10000_u32.to_nominal(&Georgian).as_string(), "\u{10F5}");
}

#[test]
fn japanese_formal_digits() {
    assert_eq!(0_u32.to_nominal(&JapaneseFormal).as_string(), "\u{96F6}");
    assert_eq!(
        4321_u32.to_nominal(&JapaneseFormal).as_string(),
        "\u{56DB}\u{9621}\u{53C2}\u{767E}\u{5F10}\u{62FE}\u{58F1}"
    );
}

#[test]
fn armenian_lower_digits() {
    assert_eq!(36_u32.to_nominal(&ArmenianLower).as_string(), "\u{56C}\u{566}");
}

#[test]
fn georgian_digits() {
    assert_eq!(
        2025_u32.to_nominal(&Georgian).as_string(),
        "\u{10EA}\u{10D9}\u{10D4}"
    );
}

#[test]
fn korean_and_informal_japanese_digits() {
    assert_eq!(
        9000_u32.to_nominal(&HangeulFormal).as_string(),
        "\u{AD6C}\u{CC9C}"
    );
    assert_eq!(0_u32.to_nominal(&HangeulFormal).as_string(), "\u{C601}");
    assert_eq!(
        21_u32.to_nominal(&HangeulInformal).as_string(),
        "\u{4E8C}\u{5341}\u{4E00}"
    );
    assert_eq!(0_u32.to_nominal(&HanjaFormal).as_string(), "\u{96F6}");
    assert_eq!(
        21_u32.to_nominal(&HanjaFormal).as_string(),
        "\u{8CB3}\u{62FE}\u{58F9}"
    );
    assert_eq!(0_u32.to_nominal(&JapaneseInformal).as_string(), "\u{3007}");
}
