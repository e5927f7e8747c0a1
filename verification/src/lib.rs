//! Formatting of non-negative integers as written nominal identifiers
//! (decimal and other positional digit scripts, spreadsheet-style letters,
//! Roman numerals, additive scripts, Hebrew numerals, Ethiopic numerals).
//!
//! Every numbering system implements [`NominalSystem`], whose contract pins
//! the produced character sequence down to a mathematical specification, so
//! that formatting is deterministic and never panics.

use vstd::prelude::*;

pub mod additive;
pub mod digital;
pub mod enumerated;
pub mod ethiopic;
pub mod hebrew;
pub mod nominalstring;
pub mod outcome;
pub mod roman;
mod sealed;

pub use additive::{
    AdditiveSet, ArmenianLower, ArmenianUpper, Georgian, HangeulFormal, HangeulInformal,
    HanjaFormal, JapaneseFormal, JapaneseInformal, RomanLower, RomanUpper,
};
pub use digital::{
    Chain, CjkDecimal, CjkEarthlyBranch, CjkHeavenlyStem, Decimal, DigitCollection, DigitSet,
    HexLower, HexUpper, LetterLower, LetterUpper, NoFallback, OneBased, Restrict,
};
pub use enumerated::EnumeratedSet;
pub use ethiopic::Ethiopic;
pub use hebrew::Hebrew;
pub use nominalstring::{NominalString, OutOfMemoryError, INLINE_CAPACITY};
pub use outcome::WithNominal;

verus! {

/// Why a nominal could not be formatted, independent of the integer width or
/// error payload that a caller requested.
#[derive(Debug, Clone, Copy, PartialEq, Eq)]
pub enum FormatFailure {
    /// The value zero was requested but the system has no zero symbol.
    NoZeroSymbol,
    /// The value exceeds what the system can represent.
    OutOfBounds,
}

/// Error types that can arise from formatting nominals in this crate.
#[derive(Debug, Clone, Copy, Eq, PartialEq)]
pub enum Error<T> {
    /// A formatting request for index `0` was made against a nominal system
    /// that has no zero symbol.
    NoZeroSymbol,
    /// This nominal can't be formatted with the available memory.
    OutOfMemory(T),
    /// This number cannot be represented by the nominal system.
    OutOfBounds(T),
}

/// An unsigned integer type that can serve as a nominal index.
///
/// All formatting algorithms in this crate work on the mathematical value of
/// the integer, so a nominal type only has to expose that value; formatting
/// behaves identically for every width at equivalent values.
pub trait UnsignedInteger: Copy + Sized + crate::sealed::IntegerDivision {
    /// The numeric value of `self`.
    spec fn as_nat(self) -> nat;

    /// Returns true if `self` is 0.
    fn is_zero(self) -> (r: bool)
        ensures
            r <==> self.as_nat() == 0,
    ;

    /// Returns the value of `self`, widened without loss.
    fn widen(self) -> (r: u128)
        ensures
            r as nat == self.as_nat(),
    ;
}

/// True when the outcome `r` of a fallible formatting call reports exactly
/// what the mathematical specification `expected` assigns to the request,
/// with `nominal` carried in the error payload.
pub open spec fn format_result_matches<T>(
    r: Result<NominalString, Error<T>>,
    expected: Result<Seq<char>, FormatFailure>,
    nominal: T,
) -> bool {
    match expected {
        Ok(s) => r matches Ok(ns) && ns@ == s,
        Err(FormatFailure::NoZeroSymbol) => r == Err::<NominalString, Error<T>>(
            Error::NoZeroSymbol,
        ),
        Err(FormatFailure::OutOfBounds) => r == Err::<NominalString, Error<T>>(
            Error::OutOfBounds(nominal),
        ),
    }
}

/// True when `s` is the content that the infallible formatting entry point
/// produces for specification outcome `expected`: the specified characters on
/// success, and the plain decimal rendering of the value `n` (or `"0"` when
/// no zero symbol exists) on failure.
pub open spec fn formatted_or_decimal(
    s: Seq<char>,
    expected: Result<Seq<char>, FormatFailure>,
    n: nat,
) -> bool {
    match expected {
        Ok(t) => s == t,
        Err(FormatFailure::NoZeroSymbol) => s == seq!['0'],
        Err(FormatFailure::OutOfBounds) => s == digital::spec_decimal(n),
    }
}

/// A system of ordered nominal identifiers.
pub trait NominalSystem<T> where T: UnsignedInteger {
    /// The character sequence this system assigns to the value `n`, or the
    /// reason no sequence exists for it.
    spec fn spec_format(&self, n: nat) -> Result<Seq<char>, FormatFailure>;

    /// Formats `nominal` using this system, falling back to plain decimal
    /// digits when the system cannot represent the value.
    fn format_nominal(&self, nominal: T) -> (r: NominalString)
        ensures
            formatted_or_decimal(r@, self.spec_format(nominal.as_nat()), nominal.as_nat()),
    {
        match self.try_format_nominal(nominal) {
            Ok(s) => s,
            Err(e) => e.into_decimal(),
        }
    }

    /// Tries to format `nominal` using this system.
    ///
    /// # Errors
    ///
    /// Returns the [`Error`] variant that [`Self::spec_format`] assigns to
    /// the value: [`Error::NoZeroSymbol`] or [`Error::OutOfBounds`].
    fn try_format_nominal(&self, nominal: T) -> (r: Result<NominalString, Error<T>>)
        ensures
            format_result_matches(r, self.spec_format(nominal.as_nat()), nominal),
    ;
}

/// A type that can be formatted with a [`NominalSystem`].
pub trait Nominal: UnsignedInteger {
    /// Returns `self` formatted as a nominal identifier using `system`.
    fn to_nominal<N: NominalSystem<Self>>(self, system: &N) -> (r: NominalString)
        ensures
            formatted_or_decimal(r@, system.spec_format(self.as_nat()), self.as_nat()),
    {
        system.format_nominal(self)
    }

    /// Tries to format `self` as a nominal identifier using `system`.
    ///
    /// # Errors
    ///
    /// Returns the [`Error`] variant that the system's specification assigns
    /// to `self`.
    fn try_to_nominal<N: NominalSystem<Self>>(self, system: &N) -> (r: Result<
        NominalString,
        Error<Self>,
    >)
        ensures
            format_result_matches(r, system.spec_format(self.as_nat()), self),
    {
        system.try_format_nominal(self)
    }
}

impl<T> Error<T> where T: UnsignedInteger {
    /// Converts this error to a nominal string in decimal form.
    ///
    /// - [`Error::NoZeroSymbol`] is returned as 0
    /// - [`Error::OutOfBounds`] and [`Error::OutOfMemory`] format the erring
    ///   nominal in plain decimal digits.
    pub fn into_decimal(self) -> (r: NominalString)
        ensures
            self is NoZeroSymbol ==> r@ == seq!['0'],
            (self matches Error::OutOfMemory(n) ==> r@ == digital::spec_decimal(n.as_nat())),
            (self matches Error::OutOfBounds(n) ==> r@ == digital::spec_decimal(n.as_nat())),
    {
        match self {
            Error::NoZeroSymbol => NominalString::from_char('0'),
            Error::OutOfBounds(nominal) | Error::OutOfMemory(nominal) => {
                digital::format_decimal(nominal)
            },
        }
    }
}

/// Unwraps a result with an [`Error`] by formatting the erring nominal in
/// plain decimal digits.
pub trait UnwrapOrDecimal {
    /// The character content [`Self::unwrap_or_decimal`] returns.
    spec fn spec_unwrap_or_decimal(self) -> Seq<char>;

    /// Returns the nominal string, or a nominal string formatted in plain
    /// decimal digits.
    fn unwrap_or_decimal(self) -> (r: NominalString)
        ensures
            r@ == self.spec_unwrap_or_decimal(),
    ;
}

impl<T> UnwrapOrDecimal for Result<NominalString, Error<T>> where T: UnsignedInteger {
    open spec fn spec_unwrap_or_decimal(self) -> Seq<char> {
        match self {
            Ok(s) => s@,
            Err(Error::NoZeroSymbol) => seq!['0'],
            Err(Error::OutOfMemory(n)) => digital::spec_decimal(n.as_nat()),
            Err(Error::OutOfBounds(n)) => digital::spec_decimal(n.as_nat()),
        }
    }

    fn unwrap_or_decimal(self) -> (r: NominalString) {
        match self {
            Ok(s) => s,
            Err(err) => err.into_decimal(),
        }
    }
}

/// Formatting is deterministic and free of side effects: any two outcomes
/// that meet the formatting contract for the same specification outcome
/// carry identical characters, and identical errors.
pub proof fn lemma_format_deterministic<T>(
    r1: Result<NominalString, Error<T>>,
    r2: Result<NominalString, Error<T>>,
    expected: Result<Seq<char>, FormatFailure>,
    nominal: T,
)
    requires
        format_result_matches(r1, expected, nominal),
        format_result_matches(r2, expected, nominal),
    ensures
        (r1 matches Ok(a) ==> (r2 matches Ok(b) && a@ == b@)),
        r1 is Err ==> r2 == r1,
{
}

impl crate::sealed::IntegerDivision for u8 {

}

impl UnsignedInteger for u8 {
    open spec fn as_nat(self) -> nat {
        self as nat
    }

    fn is_zero(self) -> bool {
        self == 0
    }

    fn widen(self) -> u128 {
        self as u128
    }
}

impl Nominal for u8 {

}

impl crate::sealed::IntegerDivision for u16 {

}

impl UnsignedInteger for u16 {
    open spec fn as_nat(self) -> nat {
        self as nat
    }

    fn is_zero(self) -> bool {
        self == 0
    }

    fn widen(self) -> u128 {
        self as u128
    }
}

impl Nominal for u16 {

}

impl crate::sealed::IntegerDivision for u32 {

}

impl UnsignedInteger for u32 {
    open spec fn as_nat(self) -> nat {
        self as nat
    }

    fn is_zero(self) -> bool {
        self == 0
    }

    fn widen(self) -> u128 {
        self as u128
    }
}

impl Nominal for u32 {

}

impl crate::sealed::IntegerDivision for u64 {

}

impl UnsignedInteger for u64 {
    open spec fn as_nat(self) -> nat {
        self as nat
    }

    fn is_zero(self) -> bool {
        self == 0
    }

    fn widen(self) -> u128 {
        self as u128
    }
}

impl Nominal for u64 {

}

impl crate::sealed::IntegerDivision for u128 {

}

impl UnsignedInteger for u128 {
    open spec fn as_nat(self) -> nat {
        self as nat
    }

    fn is_zero(self) -> bool {
        self == 0
    }

    fn widen(self) -> u128 {
        self
    }
}

impl Nominal for u128 {

}

impl crate::sealed::IntegerDivision for usize {

}

impl UnsignedInteger for usize {
    open spec fn as_nat(self) -> nat {
        self as nat
    }

    fn is_zero(self) -> bool {
        self == 0
    }

    fn widen(self) -> u128 {
        self as u128
    }
}

impl Nominal for usize {

}

} // verus!
