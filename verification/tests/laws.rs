//! Concrete checks of the crate-wide laws: determinism, neighbor
//! distinctness, error taxonomy, and graceful decimal degradation.

use nominals::{
    Decimal, EnumeratedSet, Error, Hebrew, LetterUpper, NominalSystem, RomanUpper,
    UnwrapOrDecimal, WithNominal,
};

#[test]
fn formatting_is_deterministic() {
    for n in [0_u32, 1, 4, 42, 3999, 4000, 2_000_000] {
        let a = RomanUpper.format_nominal(n);
        let b = RomanUpper.format_nominal(n);
        assert_eq!(a, b);
        assert_eq!(a.as_string(), b.as_string());
    }
    let a = Hebrew.try_format_nominal(997_u32);
    let b = Hebrew.try_format_nominal(997_u32);
    assert_eq!(a, b);
}

#[test]
fn neighbors_format_differently() {
    for n in 0_u32..200 {
        assert_ne!(Decimal.format_nominal(n), Decimal.format_nominal(n + 1));
        assert_ne!(
            LetterUpper.format_nominal(n),
            LetterUpper.format_nominal(n + 1)
        );
    }
}

#[test]
fn longer_values_never_render_shorter() {
    let mut previous = 0;
    for n in [0_u32, 1, 9, 10, 99, 100, 101, 4096, 65535] {
        let len = Decimal.format_nominal(n).as_string().chars().count();
        assert!(previous <= len);
        previous = len;
    }
}

#[test]
fn enumerated_sets() {
    let symbols = EnumeratedSet::new(vec!["zero", "one", "two"]);
    assert_eq!(symbols.format_nominal(0_u32).as_string(), "zero");
    assert_eq!(symbols.format_nominal(2_u32).as_string(), "two");
    assert_eq!(symbols.try_format_nominal(3_u32), Err(Error::OutOfBounds(3)));
    // The infallible entry point degrades to decimal past the range.
    assert_eq!(symbols.format_nominal(3_u32).as_string(), "3");

    let zeroless = EnumeratedSet::zeroless(vec!["first", "second"]);
    assert_eq!(zeroless.try_format_nominal(0_u32), Err(Error::NoZeroSymbol));
    assert_eq!(zeroless.format_nominal(1_u32).as_string(), "first");
    assert_eq!(zeroless.format_nominal(2_u32).as_string(), "second");
    assert_eq!(zeroless.try_format_nominal(3_u32), Err(Error::OutOfBounds(3)));
}

#[test]
fn errors_degrade_to_decimal() {
    assert_eq!(Error::<u32>::NoZeroSymbol.into_decimal().as_string(), "0");
    assert_eq!(Error::OutOfBounds(451_u32).into_decimal().as_string(), "451");
    assert_eq!(Error::OutOfMemory(9_u32).into_decimal().as_string(), "9");

    let ok: Result<nominals::NominalString, Error<u32>> =
        Ok(nominals::NominalString::from_str_slice("iv"));
    assert_eq!(ok.unwrap_or_decimal().as_string(), "iv");
    let err: Result<nominals::NominalString, Error<u32>> = Err(Error::OutOfBounds(7));
    assert_eq!(err.unwrap_or_decimal().as_string(), "7");
}

#[test]
fn with_nominal_wraps_memory_errors() {
    let ok: Result<(), nominals::OutOfMemoryError> = Ok(());
    assert_eq!(ok.with_nominal(3_u32), Ok(()));
    let err: Result<(), nominals::OutOfMemoryError> = Err(nominals::OutOfMemoryError);
    assert_eq!(err.with_nominal(3_u32), Err(Error::OutOfMemory(3)));
}
