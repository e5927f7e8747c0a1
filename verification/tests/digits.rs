//! Tests for the positional digit systems.

use nominals::{
    Chain, CjkEarthlyBranch, CjkHeavenlyStem, Decimal, DigitCollection, DigitSet, Error, HexLower,
    HexUpper, LetterLower, LetterUpper, NoFallback, Nominal, NominalSystem, OneBased, Restrict,
};

#[test]
fn hex() {
    assert_eq!(HexUpper.format_nominal(15_u32).as_string(), "F");
    assert_eq!(HexLower.format_nominal(0xfeed_d0d0_u32).as_string(), "feedd0d0");
}

#[test]
fn basic_digits() {
    assert_eq!(Decimal.format_nominal(0_u8).as_string(), "0");
    assert_eq!(Decimal.format_nominal(1_u8).as_string(), "1");
    assert_eq!(Decimal.format_nominal(12_u8).as_string(), "12");
    assert_eq!(LetterLower.format_nominal(0_u8).as_string(), "a");
    assert_eq!(LetterUpper.format_nominal(26_u8).as_string(), "AA");
    assert_eq!(
        LetterLower.one_based().try_format_nominal(0_u8),
        Err(Error::NoZeroSymbol)
    );
    assert_eq!(LetterLower.one_based().format_nominal(1_u8).as_string(), "a");
    assert_eq!(LetterUpper.one_based().format_nominal(26_u8).as_string(), "Z");
    assert_eq!(LetterUpper.one_based().format_nominal(27_u8).as_string(), "AA");

    assert!(core::mem::size_of::<nominals::NominalString>() <= 64);
}

#[test]
fn bijective_boundary() {
    // The last single-symbol value and the first two-symbol value of a
    // zeroless, zero-based alphabet of size 26.
    assert_eq!(LetterLower.format_nominal(25_u32).as_string(), "z");
    assert_eq!(LetterLower.format_nominal(26_u32).as_string(), "aa");
}

#[test]
fn one_based_shift_examples() {
    // The one-based form of n + 1 matches the zero-based form of n.
    for n in [0_u32, 1, 25, 26, 27, 700] {
        let shifted = LetterUpper.one_based().format_nominal(n + 1);
        let base = LetterUpper.format_nominal(n);
        assert_eq!(shifted, base);
    }
}

#[test]
fn digit_set_values() {
    let decimal = DigitSet::new(vec!['0', '1', '2', '3', '4', '5', '6', '7', '8', '9']);
    assert_eq!(decimal.format_nominal(907_u32).as_string(), "907");
    let binary = DigitSet::new(vec!['o', 'i']);
    assert_eq!(binary.format_nominal(6_u32).as_string(), "iio");
    let zeroless = DigitSet::zeroless(vec!['a', 'b']);
    assert_eq!(zeroless.format_nominal(0_u32).as_string(), "a");
    assert_eq!(zeroless.format_nominal(2_u32).as_string(), "aa");
}

#[test]
fn chained_and_restricted_hex() {
    // Hex built by chaining decimal and letters and restricting the result
    // to 16 symbols.
    let hex = Restrict::new(16, Chain::new(Decimal, LetterUpper));
    assert_eq!(hex.format_nominal(15_u32).as_string(), "F");
    assert_eq!(hex.format_nominal(255_u32).as_string(), "FF");
    let wide = Chain::new(Decimal, LetterUpper);
    assert_eq!(wide.format_nominal(35_u32).as_string(), "Z");
}

#[test]
fn one_based_wrapper() {
    let letters = OneBased::new(LetterLower);
    assert_eq!(letters.try_format_nominal(0_u32), Err(Error::NoZeroSymbol));
    assert_eq!(letters.format_nominal(27_u32).as_string(), "aa");
    // The infallible entry point degrades to decimal for the missing zero.
    assert_eq!(letters.format_nominal(0_u32).as_string(), "0");
}

#[test]
fn fixed_collections_fall_back() {
    assert_eq!(
        CjkHeavenlyStem.try_format_nominal(0_u32),
        Err(Error::NoZeroSymbol)
    );
    assert_eq!(CjkHeavenlyStem.format_nominal(1_u32).as_string(), "\u{7532}");
    assert_eq!(CjkHeavenlyStem.format_nominal(10_u32).as_string(), "\u{7678}");
    // Beyond the cycle, the stems fall back to plain CJK decimal digits.
    assert_eq!(
        CjkHeavenlyStem.format_nominal(11_u32).as_string(),
        "\u{4E00}\u{4E00}"
    );
    assert_eq!(CjkEarthlyBranch.format_nominal(12_u32).as_string(), "\u{4EA5}");
    assert_eq!(
        CjkEarthlyBranch.format_nominal(13_u32).as_string(),
        "\u{4E00}\u{4E09}"
    );
}

#[test]
fn one_based_empty_collection_rejects_zero() {
    // The missing zero symbol is reported before the empty alphabet is:
    // one-based counting on any zeroless collection rejects 0 with the
    // missing-zero-symbol error.
    assert_eq!(
        OneBased::new(NoFallback).try_format_nominal(0_u32),
        Err(Error::NoZeroSymbol)
    );
    assert_eq!(
        OneBased::new(NoFallback).try_format_nominal(1_u32),
        Err(Error::OutOfBounds(1))
    );
}

#[test]
fn empty_collection_is_out_of_bounds() {
    assert_eq!(
        NoFallback.try_format_nominal(5_u32),
        Err(Error::OutOfBounds(5))
    );
    // The infallible entry point renders the value in decimal instead.
    assert_eq!(NoFallback.format_nominal(5_u32).as_string(), "5");
}

#[test]
fn width_independence() {
    // The same value formats identically at every integer width.
    assert_eq!(LetterUpper.format_nominal(27_u8).as_string(), "AB");
    assert_eq!(LetterUpper.format_nominal(27_u16).as_string(), "AB");
    assert_eq!(LetterUpper.format_nominal(27_u32).as_string(), "AB");
    assert_eq!(LetterUpper.format_nominal(27_u64).as_string(), "AB");
    assert_eq!(LetterUpper.format_nominal(27_u128).as_string(), "AB");
    assert_eq!(LetterUpper.format_nominal(27_usize).as_string(), "AB");
}

#[test]
fn to_nominal_entry_points() {
    assert_eq!(12_u32.to_nominal(&Decimal).as_string(), "12");
    assert_eq!(12_u32.try_to_nominal(&Decimal).unwrap().as_string(), "12");
}
