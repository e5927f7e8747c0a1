//! Enumerated numbering systems: a finite list of symbols, one per value,
//! with nothing beyond the list's range.

use crate::nominalstring::NominalString;
use crate::{Error, FormatFailure, NominalSystem, UnsignedInteger};
use vstd::prelude::*;

verus! {

/// A set of enumerated symbols that form a [`NominalSystem`].
///
/// The symbol list covers a contiguous range of values starting at 0 (for
/// sets built with [`EnumeratedSet::new`]) or at 1 (for sets built with
/// [`EnumeratedSet::zeroless`]); every value past the list is out of
/// bounds.
pub struct EnumeratedSet {
    symbols: Vec<&'static str>,
    has_zero: bool,
}

impl EnumeratedSet {
    /// The symbols of this set, in ascending value order.
    pub closed spec fn spec_symbols(&self) -> Seq<Seq<char>> {
        self.symbols@.map_values(|s: &'static str| s@)
    }

    /// Whether the first symbol represents the value 0.
    pub closed spec fn spec_has_zero(&self) -> bool {
        self.has_zero
    }

    /// Creates a new enumerated set containing `symbols`, representing
    /// numerals in ascending order starting at 0.
    #[must_use]
    pub fn new(symbols: Vec<&'static str>) -> (r: Self)
        ensures
            r.spec_symbols() == symbols@.map_values(|s: &'static str| s@),
            r.spec_has_zero(),
    {
        EnumeratedSet { symbols, has_zero: true }
    }

    /// Creates a new enumerated set containing `symbols`, representing
    /// numerals in ascending order starting at 1.
    #[must_use]
    pub fn zeroless(symbols: Vec<&'static str>) -> (r: Self)
        ensures
            r.spec_symbols() == symbols@.map_values(|s: &'static str| s@),
            !r.spec_has_zero(),
    {
        EnumeratedSet { symbols, has_zero: false }
    }
}

/// The outcome an enumerated set assigns to the value `n`.
pub open spec fn spec_enumerated_format(
    symbols: Seq<Seq<char>>,
    has_zero: bool,
    n: nat,
) -> Result<Seq<char>, FormatFailure> {
    if !has_zero && n == 0 {
        Err(FormatFailure::NoZeroSymbol)
    } else {
        let index = if has_zero {
            n
        } else {
            (n - 1) as nat
        };
        if index < symbols.len() {
            Ok(symbols[index as int])
        } else {
            Err(FormatFailure::OutOfBounds)
        }
    }
}

impl<T: UnsignedInteger> NominalSystem<T> for EnumeratedSet {
    open spec fn spec_format(&self, n: nat) -> Result<Seq<char>, FormatFailure> {
        spec_enumerated_format(self.spec_symbols(), self.spec_has_zero(), n)
    }

    fn try_format_nominal(&self, nominal: T) -> (r: Result<NominalString, Error<T>>) {
        let n = nominal.widen();
        if !self.has_zero && n == 0 {
            return Err(Error::NoZeroSymbol);
        }
        let index = if self.has_zero {
            n
        } else {
            n - 1
        };
        if index < self.symbols.len() as u128 {
            let symbol = self.symbols[index as usize];
            Ok(NominalString::from_str_slice(symbol))
        } else {
            Err(Error::OutOfBounds(nominal))
        }
    }
}

} // verus!
