//! Systems that operate using ordered sets of digit-like characters.
//!
//! The engine here is one generic place-value conversion: a value is broken
//! into digit indices against the size of a [`DigitCollection`], least
//! significant place first, and each index is looked up in the collection.
//! Collections without a zero symbol use bijective numeration (the
//! spreadsheet-column order A, B, ..., Z, AA, ...), either starting at 0 or,
//! for one-based collections, starting at 1 and rejecting 0.

use crate::nominalstring::NominalString;
use crate::{Error, FormatFailure, NominalSystem, UnsignedInteger};
use vstd::prelude::*;

verus! {

/// The sequence of digit indices the place-value loop emits for `n`, most
/// significant place first.
///
/// `first` tells whether the least significant place is still to be emitted:
/// for collections without a zero symbol, every place but (for zero-based
/// collections) the first one counts from 1, so the working value is lowered
/// by one before its digit is taken.
///
/// The two degenerate early returns (a single-symbol collection with a zero
/// digit and a nonzero value, and a missing zero symbol at value zero) are
/// reported as errors by [`spec_digits_format`] before this function is
/// consulted.
pub open spec fn positional_digits(
    n: nat,
    base: nat,
    has_zero: bool,
    zero_based: bool,
    first: bool,
) -> Seq<nat>
    recommends
        1 <= base,
    decreases n, (if first { 1int } else { 0int }),
    via positional_digits_decreases
{
    if (n == 0 && !first) || base == 0 {
        seq![]
    } else if has_zero && base <= 1 && n > 0 {
        seq![]
    } else if !has_zero && (!zero_based || !first) {
        if n == 0 {
            seq![]
        } else {
            let m = (n - 1) as nat;
            positional_digits(m / base, base, has_zero, zero_based, false) + seq![m % base]
        }
    } else {
        positional_digits(n / base, base, has_zero, zero_based, false) + seq![n % base]
    }
}

#[via_fn]
proof fn positional_digits_decreases(n: nat, base: nat, has_zero: bool, zero_based: bool, first: bool) {
    if base >= 1 {
        if n >= 1 {
            vstd::arithmetic::div_mod::lemma_div_nonincreasing((n - 1) as int, base as int);
        }
        vstd::arithmetic::div_mod::lemma_div_nonincreasing(n as int, base as int);
        if base >= 2 && n >= 1 {
            vstd::arithmetic::div_mod::lemma_div_decreases(n as int, base as int);
        }
    }
}

/// Maps a sequence of digit indices to the corresponding characters of
/// `digits`.
pub open spec fn nominal_chars(digits: Seq<char>, indexes: Seq<nat>) -> Seq<char> {
    indexes.map_values(|d: nat| digits[d as int])
}

/// The outcome of place-value formatting of `n` against an alphabet
/// `digits`, before any fixed-range or fallback handling.
///
/// - A zeroless, one-based alphabet has no representation of 0, whatever
///   its size.
/// - An empty alphabet can represent nothing else.
/// - An alphabet of one symbol that is a zero digit can only represent 0
///   (for any larger value the place-value loop would never finish).
pub open spec fn spec_digits_format(
    digits: Seq<char>,
    has_zero: bool,
    zero_based: bool,
    n: nat,
) -> Result<Seq<char>, FormatFailure> {
    let base = digits.len();
    if !has_zero && !zero_based && n == 0 {
        Err(FormatFailure::NoZeroSymbol)
    } else if base == 0 {
        Err(FormatFailure::OutOfBounds)
    } else if has_zero && base == 1 && n > 0 {
        Err(FormatFailure::OutOfBounds)
    } else {
        Ok(nominal_chars(digits, positional_digits(n, base, has_zero, zero_based, true)))
    }
}

/// The digit alphabet a fixed collection falls back to once its own range is
/// exhausted. Fallback alphabets always count zero-based.
pub struct FallbackDescription {
    /// The symbols of the fallback alphabet.
    pub digits: Seq<char>,
    /// Whether index 0 of the fallback alphabet is a zero digit.
    pub has_zero: bool,
}

/// True when the concrete fallback collection `r` realizes the description
/// `f`.
pub open spec fn fallback_matches(r: Option<DigitSet>, f: Option<FallbackDescription>) -> bool {
    match f {
        Some(fd) => r matches Some(d) && d.spec_symbols() == fd.digits && d.spec_zero_symbol()
            == fd.has_zero,
        None => r is None,
    }
}

/// The outcome a [`DigitCollection`] assigns to the value `n`: place-value
/// formatting against its own alphabet, except that a fixed collection
/// delegates every value beyond its single-digit range to its fallback
/// alphabet (or rejects the value when it has none).
pub open spec fn spec_collection_format(
    digits: Seq<char>,
    has_zero: bool,
    zero_based: bool,
    fixed: bool,
    fallback: Option<FallbackDescription>,
    n: nat,
) -> Result<Seq<char>, FormatFailure> {
    if fixed && (if zero_based {
        n >= digits.len()
    } else {
        n > digits.len()
    }) {
        match fallback {
            Some(f) => spec_digits_format(f.digits, f.has_zero, true, n),
            None => Err(FormatFailure::OutOfBounds),
        }
    } else {
        spec_digits_format(digits, has_zero, zero_based, n)
    }
}

/// An ordered collection of digits that can be used as a [`NominalSystem`].
pub trait DigitCollection: Sized {
    /// The ordered alphabet of this collection.
    spec fn spec_digits(&self) -> Seq<char>;

    /// Whether index 0 of the alphabet is a zero digit.
    spec fn spec_has_zero(&self) -> bool;

    /// Whether a zeroless alphabet starts counting at 0 rather than 1.
    spec fn spec_zero_based(&self) -> bool;

    /// Whether this collection can only produce a single digit by itself.
    spec fn spec_fixed(&self) -> bool;

    /// The fallback alphabet consulted once a fixed collection's range is
    /// exhausted.
    spec fn spec_fallback(&self) -> Option<FallbackDescription>;

    /// If true, this digit collection can only produce a single digit, and
    /// values beyond its range are delegated to [`Self::fallback`].
    fn fixed(&self) -> (r: bool)
        ensures
            r == self.spec_fixed(),
    ;

    /// Returns true if this collection has a symbol representing `0` at
    /// index 0.
    fn has_zero_digit(&self) -> (r: bool)
        ensures
            r == self.spec_has_zero(),
    ;

    /// Returns true if this collection should start counting at 0 instead of
    /// 1. This is only consulted if `has_zero_digit()` returns false.
    fn zero_based(&self) -> (r: bool)
        ensures
            r == self.spec_zero_based(),
    ;

    /// Returns the number of digits in this collection.
    fn len(&self) -> (r: usize)
        ensures
            r == self.spec_digits().len(),
    ;

    /// Returns true if this collection's length is 0.
    fn is_empty(&self) -> (r: bool)
        ensures
            r <==> self.spec_digits().len() == 0,
    {
        self.len() == 0
    }

    /// Returns the digit at location `index`.
    ///
    /// Callers must stay within the collection's length.
    fn digit(&self, index: usize) -> (r: char)
        requires
            index < self.spec_digits().len(),
        ensures
            r == self.spec_digits()[index as int],
    ;

    /// Returns the fallback collection consulted once a fixed collection's
    /// single-digit range is exhausted, or `None` when exhausting the range
    /// is an error.
    fn fallback(&self) -> (r: Option<DigitSet>)
        ensures
            fallback_matches(r, self.spec_fallback()),
    ;

    /// Returns this collection, adjusted so that counting starts at 1
    /// instead of 0.
    ///
    /// This has no effect if the collection has a zero digit.
    fn one_based(self) -> (r: OneBased<Self>)
        ensures
            r.spec_inner() == self,
    {
        OneBased::new(self)
    }
}

/// Formats `n` against the alphabet of `d` with the place-value loop.
fn format_digits<D: DigitCollection>(d: &D, n: u128) -> (r: Result<NominalString, FormatFailure>)
    requires
        d.spec_digits().len() >= 1,
    ensures
        match spec_digits_format(d.spec_digits(), d.spec_has_zero(), d.spec_zero_based(), n as nat) {
            Ok(s) => r matches Ok(ns) && ns@ == s,
            Err(f) => r == Err::<NominalString, FormatFailure>(f),
        },
{
    let base_usize = d.len();
    let base: u128 = base_usize as u128;
    let has_zero = d.has_zero_digit();
    let zero_based = d.zero_based();
    if has_zero && base == 1 && n > 0 {
        return Err(FormatFailure::OutOfBounds);
    }
    if !has_zero && !zero_based && n == 0 {
        return Err(FormatFailure::NoZeroSymbol);
    }
    let ghost gdigits = d.spec_digits();
    let ghost spec_seq = nominal_chars(
        gdigits,
        positional_digits(n as nat, base as nat, has_zero, zero_based, true),
    );
    let mut formatted = NominalString::new_reverse();
    let mut remaining = n;
    let mut first = true;
    proof {
        assert(spec_seq + Seq::<char>::empty() =~= spec_seq);
    }
    while remaining != 0 || first
        invariant
            gdigits == d.spec_digits(),
            base == gdigits.len(),
            base == base_usize as u128,
            base >= 1,
            has_zero == d.spec_has_zero(),
            zero_based == d.spec_zero_based(),
            has_zero && base == 1 ==> remaining == 0,
            !has_zero && !zero_based ==> n > 0,
            first ==> remaining == n,
            spec_seq == nominal_chars(
                gdigits,
                positional_digits(remaining as nat, base as nat, has_zero, zero_based, first),
            ) + formatted@,
        decreases remaining, (if first { 1int } else { 0int }),
    {
        let ghost rem0 = remaining as nat;
        let ghost first0 = first;
        let mut m = remaining;
        if !has_zero && (!zero_based || !first) {
            m = m - 1;
        }
        first = false;
        let idx = (m % base) as usize;
        proof {
            assert(m % base < base);
        }
        let ch = d.digit(idx);
        let _ = formatted.try_push_front(ch);
        remaining = m / base;
        proof {
            let gm = m as nat;
            let gbase = base as nat;
            let tail = positional_digits(rem0, gbase, has_zero, zero_based, first0);
            let head = positional_digits(gm / gbase, gbase, has_zero, zero_based, false);
            assert(tail == head + seq![gm % gbase]);
            assert(nominal_chars(gdigits, tail) =~= nominal_chars(gdigits, head) + seq![
                gdigits[(gm % gbase) as int],
            ]);
            vstd::arithmetic::div_mod::lemma_div_nonincreasing(m as int, base as int);
            if m > 0 && base >= 2 {
                vstd::arithmetic::div_mod::lemma_div_decreases(m as int, base as int);
            }
        }
    }
    proof {
        assert(positional_digits(remaining as nat, base as nat, has_zero, zero_based, first)
            =~= Seq::<nat>::empty());
        assert(nominal_chars(gdigits, Seq::<nat>::empty()) =~= Seq::<char>::empty());
        assert(Seq::<char>::empty() + formatted@ =~= formatted@);
    }
    Ok(formatted)
}

/// An ordered set of characters that can be treated as digits.
///
/// A set constructed with [`DigitSet::new`] treats its first digit as the
/// symbol for `0`; a set constructed with [`DigitSet::zeroless`] has no zero
/// symbol and counts in bijective numeration.
#[derive(Debug, Clone)]
pub struct DigitSet {
    digits: Vec<char>,
    has_zero: bool,
}

impl DigitSet {
    /// The ordered symbols of this set.
    pub closed spec fn spec_symbols(&self) -> Seq<char> {
        self.digits@
    }

    /// Whether the first symbol of this set represents the `0` digit.
    pub closed spec fn spec_zero_symbol(&self) -> bool {
        self.has_zero
    }

    /// Returns a digit set whose first digit represents the `0` digit.
    #[must_use]
    pub fn new(digits: Vec<char>) -> (r: Self)
        ensures
            r.spec_symbols() == digits@,
            r.spec_zero_symbol(),
    {
        DigitSet { digits, has_zero: true }
    }

    /// Returns a digit set that does not have a symbol representing a `0`
    /// digit.
    #[must_use]
    pub fn zeroless(digits: Vec<char>) -> (r: Self)
        ensures
            r.spec_symbols() == digits@,
            !r.spec_zero_symbol(),
    {
        DigitSet { digits, has_zero: false }
    }
}

impl DigitCollection for DigitSet {
    open spec fn spec_digits(&self) -> Seq<char> {
        self.spec_symbols()
    }

    open spec fn spec_has_zero(&self) -> bool {
        self.spec_zero_symbol()
    }

    open spec fn spec_zero_based(&self) -> bool {
        true
    }

    open spec fn spec_fixed(&self) -> bool {
        false
    }

    open spec fn spec_fallback(&self) -> Option<FallbackDescription> {
        None
    }

    fn fixed(&self) -> bool {
        false
    }

    fn has_zero_digit(&self) -> bool {
        self.has_zero
    }

    fn zero_based(&self) -> bool {
        true
    }

    fn len(&self) -> usize {
        self.digits.len()
    }

    fn digit(&self, index: usize) -> char {
        self.digits[index]
    }

    fn fallback(&self) -> Option<DigitSet> {
        None
    }
}

/// Begins counting at 1 when formatting a nominal identifier.
#[derive(Debug, Clone, Copy, Eq, PartialEq, Hash)]
pub struct OneBased<T>(T);

impl<T> OneBased<T> {
    /// The collection whose counting is being adjusted.
    pub closed spec fn spec_inner(&self) -> T {
        self.0
    }

    /// Returns `digits`, adjusted to start counting at 1.
    pub fn new(digits: T) -> (r: Self)
        ensures
            r.spec_inner() == digits,
    {
        OneBased(digits)
    }
}

impl<T: DigitCollection> DigitCollection for OneBased<T> {
    open spec fn spec_digits(&self) -> Seq<char> {
        self.spec_inner().spec_digits()
    }

    open spec fn spec_has_zero(&self) -> bool {
        self.spec_inner().spec_has_zero()
    }

    open spec fn spec_zero_based(&self) -> bool {
        false
    }

    open spec fn spec_fixed(&self) -> bool {
        false
    }

    open spec fn spec_fallback(&self) -> Option<FallbackDescription> {
        self.spec_inner().spec_fallback()
    }

    fn fixed(&self) -> bool {
        false
    }

    fn has_zero_digit(&self) -> bool {
        self.0.has_zero_digit()
    }

    fn zero_based(&self) -> bool {
        false
    }

    fn len(&self) -> usize {
        self.0.len()
    }

    fn digit(&self, index: usize) -> char {
        self.0.digit(index)
    }

    fn fallback(&self) -> Option<DigitSet> {
        self.0.fallback()
    }
}

/// A combination of two [`DigitCollection`] implementations.
///
/// Digits from `A` will be selected before digits from `B`.
#[derive(Debug)]
pub struct Chain<A: DigitCollection, B: DigitCollection> {
    a: A,
    b: B,
}

impl<A: DigitCollection, B: DigitCollection> Chain<A, B> {
    #[verifier::type_invariant]
    spec fn chain_len_in_range(self) -> bool {
        self.a.spec_digits().len() + self.b.spec_digits().len() <= usize::MAX
    }

    /// Returns a new combined set of digits.
    pub fn new(a: A, b: B) -> (r: Self)
        requires
            a.spec_digits().len() + b.spec_digits().len() <= usize::MAX,
        ensures
            r.spec_digits() == a.spec_digits() + b.spec_digits(),
            r.spec_has_zero() == a.spec_has_zero(),
            r.spec_zero_based() == a.spec_zero_based(),
            !r.spec_fixed(),
    {
        Chain { a, b }
    }
}

impl<A: DigitCollection, B: DigitCollection> DigitCollection for Chain<A, B> {
    closed spec fn spec_digits(&self) -> Seq<char> {
        self.a.spec_digits() + self.b.spec_digits()
    }

    closed spec fn spec_has_zero(&self) -> bool {
        self.a.spec_has_zero()
    }

    closed spec fn spec_zero_based(&self) -> bool {
        self.a.spec_zero_based()
    }

    closed spec fn spec_fixed(&self) -> bool {
        false
    }

    closed spec fn spec_fallback(&self) -> Option<FallbackDescription> {
        None
    }

    fn fixed(&self) -> bool {
        false
    }

    fn has_zero_digit(&self) -> bool {
        self.a.has_zero_digit()
    }

    fn zero_based(&self) -> bool {
        self.a.zero_based()
    }

    fn len(&self) -> usize {
        proof {
            use_type_invariant(&*self);
        }
        self.a.len() + self.b.len()
    }

    fn digit(&self, index: usize) -> char {
        let a_len = self.a.len();
        if index < a_len {
            self.a.digit(index)
        } else {
            self.b.digit(index - a_len)
        }
    }

    fn fallback(&self) -> Option<DigitSet> {
        None
    }
}

/// Restricts a set of digits to a specific length.
#[derive(Debug)]
pub struct Restrict<T: DigitCollection> {
    collection: T,
    count: usize,
}

impl<T: DigitCollection> Restrict<T> {
    #[verifier::type_invariant]
    spec fn count_in_range(self) -> bool {
        self.count <= self.collection.spec_digits().len()
    }

    /// Returns a new collection that restricts `collection` to its first
    /// `count` digits.
    pub fn new(count: usize, collection: T) -> (r: Self)
        requires
            count <= collection.spec_digits().len(),
        ensures
            r.spec_digits() == collection.spec_digits().take(count as int),
            r.spec_has_zero() == collection.spec_has_zero(),
            r.spec_zero_based() == collection.spec_zero_based(),
            !r.spec_fixed(),
    {
        Restrict { collection, count }
    }
}

impl<T: DigitCollection> DigitCollection for Restrict<T> {
    closed spec fn spec_digits(&self) -> Seq<char> {
        self.collection.spec_digits().take(self.count as int)
    }

    closed spec fn spec_has_zero(&self) -> bool {
        self.collection.spec_has_zero()
    }

    closed spec fn spec_zero_based(&self) -> bool {
        self.collection.spec_zero_based()
    }

    closed spec fn spec_fixed(&self) -> bool {
        false
    }

    closed spec fn spec_fallback(&self) -> Option<FallbackDescription> {
        None
    }

    fn fixed(&self) -> bool {
        false
    }

    fn has_zero_digit(&self) -> bool {
        self.collection.has_zero_digit()
    }

    fn zero_based(&self) -> bool {
        self.collection.zero_based()
    }

    fn len(&self) -> usize {
        proof {
            use_type_invariant(&*self);
        }
        self.count
    }

    fn digit(&self, index: usize) -> char {
        proof {
            use_type_invariant(&*self);
        }
        self.collection.digit(index)
    }

    fn fallback(&self) -> Option<DigitSet> {
        None
    }
}

/// An empty [`DigitCollection`] that indicates no fallback should be used as
/// a fixed collection's fallback.
#[derive(Default, Clone, Copy, Debug, Eq, PartialEq)]
pub struct NoFallback;

impl DigitCollection for NoFallback {
    open spec fn spec_digits(&self) -> Seq<char> {
        Seq::empty()
    }

    open spec fn spec_has_zero(&self) -> bool {
        false
    }

    open spec fn spec_zero_based(&self) -> bool {
        true
    }

    open spec fn spec_fixed(&self) -> bool {
        false
    }

    open spec fn spec_fallback(&self) -> Option<FallbackDescription> {
        None
    }

    fn fixed(&self) -> bool {
        false
    }

    fn has_zero_digit(&self) -> bool {
        false
    }

    fn zero_based(&self) -> bool {
        true
    }

    fn len(&self) -> usize {
        0
    }

    fn digit(&self, _index: usize) -> char {
        vstd::pervasive::unreached()
    }

    fn fallback(&self) -> Option<DigitSet> {
        None
    }
}

/// The blanket formatting implementation: every digit collection is a
/// nominal system through the place-value engine.
impl<T: UnsignedInteger, D: DigitCollection> NominalSystem<T> for D {
    open spec fn spec_format(&self, n: nat) -> Result<Seq<char>, FormatFailure> {
        spec_collection_format(
            self.spec_digits(),
            self.spec_has_zero(),
            self.spec_zero_based(),
            self.spec_fixed(),
            self.spec_fallback(),
            n,
        )
    }

    fn try_format_nominal(&self, nominal: T) -> (r: Result<NominalString, Error<T>>) {
        let n = nominal.widen();
        let len = self.len();
        let out_of_range = if self.zero_based() {
            n >= len as u128
        } else {
            n > len as u128
        };
        if self.fixed() && out_of_range {
            match self.fallback() {
                Some(fb) => {
                    if fb.is_empty() {
                        Err(Error::OutOfBounds(nominal))
                    } else {
                        match format_digits(&fb, n) {
                            Ok(s) => Ok(s),
                            Err(FormatFailure::NoZeroSymbol) => Err(Error::NoZeroSymbol),
                            Err(FormatFailure::OutOfBounds) => Err(Error::OutOfBounds(nominal)),
                        }
                    }
                },
                None => Err(Error::OutOfBounds(nominal)),
            }
        } else {
            if !self.has_zero_digit() && !self.zero_based() && n == 0 {
                return Err(Error::NoZeroSymbol);
            }
            if len == 0 {
                return Err(Error::OutOfBounds(nominal));
            }
            match format_digits(self, n) {
                Ok(s) => Ok(s),
                Err(FormatFailure::NoZeroSymbol) => Err(Error::NoZeroSymbol),
                Err(FormatFailure::OutOfBounds) => Err(Error::OutOfBounds(nominal)),
            }
        }
    }
}

/// The alphabet of western ASCII numeric digits.
pub open spec fn decimal_digits() -> Seq<char> {
    seq!['0', '1', '2', '3', '4', '5', '6', '7', '8', '9']
}

/// The plain decimal rendering of `n`, used by the infallible formatting
/// entry points as their universal fallback.
pub open spec fn spec_decimal(n: nat) -> Seq<char> {
    nominal_chars(decimal_digits(), positional_digits(n, 10, true, true, true))
}

/// Returns the decimal digit alphabet as a concrete digit set.
fn decimal_set() -> (r: DigitSet)
    ensures
        r.spec_symbols() == decimal_digits(),
        r.spec_zero_symbol(),
{
    let mut v: Vec<char> = Vec::new();
    v.push('0');
    v.push('1');
    v.push('2');
    v.push('3');
    v.push('4');
    v.push('5');
    v.push('6');
    v.push('7');
    v.push('8');
    v.push('9');
    proof {
        assert(v@ =~= decimal_digits());
    }
    DigitSet::new(v)
}

/// Formats `nominal` in plain decimal digits.
pub fn format_decimal<T: UnsignedInteger>(nominal: T) -> (r: NominalString)
    ensures
        r@ == spec_decimal(nominal.as_nat()),
{
    let set = decimal_set();
    match format_digits(&set, nominal.widen()) {
        Ok(s) => s,
        Err(_) => {
            proof {
                assert(false);
            }
            NominalString::new()
        },
    }
}

/// Western ASCII numeric digits.
#[derive(Default, Debug, Clone, Copy, Eq, PartialEq, Hash)]
pub struct Decimal;

impl DigitCollection for Decimal {
    open spec fn spec_digits(&self) -> Seq<char> {
        decimal_digits()
    }

    open spec fn spec_has_zero(&self) -> bool {
        true
    }

    open spec fn spec_zero_based(&self) -> bool {
        true
    }

    open spec fn spec_fixed(&self) -> bool {
        false
    }

    open spec fn spec_fallback(&self) -> Option<FallbackDescription> {
        None
    }

    fn fixed(&self) -> bool {
        false
    }

    fn has_zero_digit(&self) -> bool {
        true
    }

    fn zero_based(&self) -> bool {
        true
    }

    fn len(&self) -> usize {
        10
    }

    fn digit(&self, index: usize) -> char {
        let set = decimal_set();
        set.digit(index)
    }

    fn fallback(&self) -> Option<DigitSet> {
        None
    }
}

/// The alphabet of ascii uppercase characters.
pub open spec fn letter_upper_digits() -> Seq<char> {
    seq![
        'A', 'B', 'C', 'D', 'E', 'F', 'G', 'H', 'I', 'J', 'K', 'L', 'M', 'N', 'O', 'P',
        'Q', 'R', 'S', 'T', 'U', 'V', 'W', 'X', 'Y', 'Z',
    ]
}

/// Returns the ascii uppercase characters alphabet as a concrete digit set.
fn letter_upper_set() -> (r: DigitSet)
    ensures
        r.spec_symbols() == letter_upper_digits(),
        !r.spec_zero_symbol(),
{
    let mut v: Vec<char> = Vec::new();
    v.push('A');
    v.push('B');
    v.push('C');
    v.push('D');
    v.push('E');
    v.push('F');
    v.push('G');
    v.push('H');
    v.push('I');
    v.push('J');
    v.push('K');
    v.push('L');
    v.push('M');
    v.push('N');
    v.push('O');
    v.push('P');
    v.push('Q');
    v.push('R');
    v.push('S');
    v.push('T');
    v.push('U');
    v.push('V');
    v.push('W');
    v.push('X');
    v.push('Y');
    v.push('Z');
    proof {
        assert(v@ =~= letter_upper_digits());
    }
    DigitSet::zeroless(v)
}

/// ASCII uppercase characters.
#[derive(Default, Debug, Clone, Copy, Eq, PartialEq, Hash)]
pub struct LetterUpper;

impl DigitCollection for LetterUpper {
    open spec fn spec_digits(&self) -> Seq<char> {
        letter_upper_digits()
    }

    open spec fn spec_has_zero(&self) -> bool {
        false
    }

    open spec fn spec_zero_based(&self) -> bool {
        true
    }

    open spec fn spec_fixed(&self) -> bool {
        false
    }

    open spec fn spec_fallback(&self) -> Option<FallbackDescription> {
        None
    }

    fn fixed(&self) -> bool {
        false
    }

    fn has_zero_digit(&self) -> bool {
        false
    }

    fn zero_based(&self) -> bool {
        true
    }

    fn len(&self) -> usize {
        26
    }

    fn digit(&self, index: usize) -> char {
        let set = letter_upper_set();
        set.digit(index)
    }

    fn fallback(&self) -> Option<DigitSet> {
        None
    }
}

/// The alphabet of ascii lowercase characters.
pub open spec fn letter_lower_digits() -> Seq<char> {
    seq![
        'a', 'b', 'c', 'd', 'e', 'f', 'g', 'h', 'i', 'j', 'k', 'l', 'm', 'n', 'o', 'p',
        'q', 'r', 's', 't', 'u', 'v', 'w', 'x', 'y', 'z',
    ]
}

/// Returns the ascii lowercase characters alphabet as a concrete digit set.
fn letter_lower_set() -> (r: DigitSet)
    ensures
        r.spec_symbols() == letter_lower_digits(),
        !r.spec_zero_symbol(),
{
    let mut v: Vec<char> = Vec::new();
    v.push('a');
    v.push('b');
    v.push('c');
    v.push('d');
    v.push('e');
    v.push('f');
    v.push('g');
    v.push('h');
    v.push('i');
    v.push('j');
    v.push('k');
    v.push('l');
    v.push('m');
    v.push('n');
    v.push('o');
    v.push('p');
    v.push('q');
    v.push('r');
    v.push('s');
    v.push('t');
    v.push('u');
    v.push('v');
    v.push('w');
    v.push('x');
    v.push('y');
    v.push('z');
    proof {
        assert(v@ =~= letter_lower_digits());
    }
    DigitSet::zeroless(v)
}

/// ASCII lowercase characters.
#[derive(Default, Debug, Clone, Copy, Eq, PartialEq, Hash)]
pub struct LetterLower;

impl DigitCollection for LetterLower {
    open spec fn spec_digits(&self) -> Seq<char> {
        letter_lower_digits()
    }

    open spec fn spec_has_zero(&self) -> bool {
        false
    }

    open spec fn spec_zero_based(&self) -> bool {
        true
    }

    open spec fn spec_fixed(&self) -> bool {
        false
    }

    open spec fn spec_fallback(&self) -> Option<FallbackDescription> {
        None
    }

    fn fixed(&self) -> bool {
        false
    }

    fn has_zero_digit(&self) -> bool {
        false
    }

    fn zero_based(&self) -> bool {
        true
    }

    fn len(&self) -> usize {
        26
    }

    fn digit(&self, index: usize) -> char {
        let set = letter_lower_set();
        set.digit(index)
    }

    fn fallback(&self) -> Option<DigitSet> {
        None
    }
}

/// The alphabet of hexadecimal uppercase ascii characters.
pub open spec fn hex_upper_digits() -> Seq<char> {
    seq!['0', '1', '2', '3', '4', '5', '6', '7', '8', '9', 'A', 'B', 'C', 'D', 'E', 'F']
}

/// Returns the hexadecimal uppercase ascii characters alphabet as a concrete digit set.
fn hex_upper_set() -> (r: DigitSet)
    ensures
        r.spec_symbols() == hex_upper_digits(),
        r.spec_zero_symbol(),
{
    let mut v: Vec<char> = Vec::new();
    v.push('0');
    v.push('1');
    v.push('2');
    v.push('3');
    v.push('4');
    v.push('5');
    v.push('6');
    v.push('7');
    v.push('8');
    v.push('9');
    v.push('A');
    v.push('B');
    v.push('C');
    v.push('D');
    v.push('E');
    v.push('F');
    proof {
        assert(v@ =~= hex_upper_digits());
    }
    DigitSet::new(v)
}

/// Hexadecimal uppercase ASCII characters.
#[derive(Default, Debug, Clone, Copy, Eq, PartialEq, Hash)]
pub struct HexUpper;

impl DigitCollection for HexUpper {
    open spec fn spec_digits(&self) -> Seq<char> {
        hex_upper_digits()
    }

    open spec fn spec_has_zero(&self) -> bool {
        true
    }

    open spec fn spec_zero_based(&self) -> bool {
        true
    }

    open spec fn spec_fixed(&self) -> bool {
        false
    }

    open spec fn spec_fallback(&self) -> Option<FallbackDescription> {
        None
    }

    fn fixed(&self) -> bool {
        false
    }

    fn has_zero_digit(&self) -> bool {
        true
    }

    fn zero_based(&self) -> bool {
        true
    }

    fn len(&self) -> usize {
        16
    }

    fn digit(&self, index: usize) -> char {
        let set = hex_upper_set();
        set.digit(index)
    }

    fn fallback(&self) -> Option<DigitSet> {
        None
    }
}

/// The alphabet of hexadecimal lowercase ascii characters.
pub open spec fn hex_lower_digits() -> Seq<char> {
    seq!['0', '1', '2', '3', '4', '5', '6', '7', '8', '9', 'a', 'b', 'c', 'd', 'e', 'f']
}

/// Returns the hexadecimal lowercase ascii characters alphabet as a concrete digit set.
fn hex_lower_set() -> (r: DigitSet)
    ensures
        r.spec_symbols() == hex_lower_digits(),
        r.spec_zero_symbol(),
{
    let mut v: Vec<char> = Vec::new();
    v.push('0');
    v.push('1');
    v.push('2');
    v.push('3');
    v.push('4');
    v.push('5');
    v.push('6');
    v.push('7');
    v.push('8');
    v.push('9');
    v.push('a');
    v.push('b');
    v.push('c');
    v.push('d');
    v.push('e');
    v.push('f');
    proof {
        assert(v@ =~= hex_lower_digits());
    }
    DigitSet::new(v)
}

/// Hexadecimal lowercase ASCII characters.
#[derive(Default, Debug, Clone, Copy, Eq, PartialEq, Hash)]
pub struct HexLower;

impl DigitCollection for HexLower {
    open spec fn spec_digits(&self) -> Seq<char> {
        hex_lower_digits()
    }

    open spec fn spec_has_zero(&self) -> bool {
        true
    }

    open spec fn spec_zero_based(&self) -> bool {
        true
    }

    open spec fn spec_fixed(&self) -> bool {
        false
    }

    open spec fn spec_fallback(&self) -> Option<FallbackDescription> {
        None
    }

    fn fixed(&self) -> bool {
        false
    }

    fn has_zero_digit(&self) -> bool {
        true
    }

    fn zero_based(&self) -> bool {
        true
    }

    fn len(&self) -> usize {
        16
    }

    fn digit(&self, index: usize) -> char {
        let set = hex_lower_set();
        set.digit(index)
    }

    fn fallback(&self) -> Option<DigitSet> {
        None
    }
}

/// The alphabet of cjk han decimal digits.
pub open spec fn cjk_decimal_digits() -> Seq<char> {
    seq![
        '\u{3007}', '\u{4E00}', '\u{4E8C}', '\u{4E09}', '\u{56DB}', '\u{4E94}', '\u{516D}',
        '\u{4E03}', '\u{516B}', '\u{4E5D}',
    ]
}

/// Returns the cjk han decimal digits alphabet as a concrete digit set.
fn cjk_decimal_set() -> (r: DigitSet)
    ensures
        r.spec_symbols() == cjk_decimal_digits(),
        r.spec_zero_symbol(),
{
    let mut v: Vec<char> = Vec::new();
    v.push('\u{3007}');
    v.push('\u{4E00}');
    v.push('\u{4E8C}');
    v.push('\u{4E09}');
    v.push('\u{56DB}');
    v.push('\u{4E94}');
    v.push('\u{516D}');
    v.push('\u{4E03}');
    v.push('\u{516B}');
    v.push('\u{4E5D}');
    proof {
        assert(v@ =~= cjk_decimal_digits());
    }
    DigitSet::new(v)
}

/// CJK Han decimal digits.
#[derive(Default, Debug, Clone, Copy, Eq, PartialEq, Hash)]
pub struct CjkDecimal;

impl DigitCollection for CjkDecimal {
    open spec fn spec_digits(&self) -> Seq<char> {
        cjk_decimal_digits()
    }

    open spec fn spec_has_zero(&self) -> bool {
        true
    }

    open spec fn spec_zero_based(&self) -> bool {
        true
    }

    open spec fn spec_fixed(&self) -> bool {
        false
    }

    open spec fn spec_fallback(&self) -> Option<FallbackDescription> {
        None
    }

    fn fixed(&self) -> bool {
        false
    }

    fn has_zero_digit(&self) -> bool {
        true
    }

    fn zero_based(&self) -> bool {
        true
    }

    fn len(&self) -> usize {
        10
    }

    fn digit(&self, index: usize) -> char {
        let set = cjk_decimal_set();
        set.digit(index)
    }

    fn fallback(&self) -> Option<DigitSet> {
        None
    }
}

/// The alphabet of cjk heavenly stems symbols.
pub open spec fn cjk_heavenly_stem_digits() -> Seq<char> {
    seq![
        '\u{7532}', '\u{4E59}', '\u{4E19}', '\u{4E01}', '\u{620A}', '\u{5DF1}', '\u{5E9A}',
        '\u{8F9B}', '\u{58EC}', '\u{7678}',
    ]
}

/// Returns the alphabet of cjk heavenly stems symbols as a concrete digit set.
fn cjk_heavenly_stem_set() -> (r: DigitSet)
    ensures
        r.spec_symbols() == cjk_heavenly_stem_digits(),
        !r.spec_zero_symbol(),
{
    let mut v: Vec<char> = Vec::new();
    v.push('\u{7532}');
    v.push('\u{4E59}');
    v.push('\u{4E19}');
    v.push('\u{4E01}');
    v.push('\u{620A}');
    v.push('\u{5DF1}');
    v.push('\u{5E9A}');
    v.push('\u{8F9B}');
    v.push('\u{58EC}');
    v.push('\u{7678}');
    proof {
        assert(v@ =~= cjk_heavenly_stem_digits());
    }
    DigitSet::zeroless(v)
}

/// CJK Heavenly Stems symbols.
///
/// This digit collection falls back to [`CjkDecimal`] after the set is
/// enumerated.
#[derive(Default, Debug, Clone, Copy, Eq, PartialEq, Hash)]
pub struct CjkHeavenlyStem;

impl DigitCollection for CjkHeavenlyStem {
    open spec fn spec_digits(&self) -> Seq<char> {
        cjk_heavenly_stem_digits()
    }

    open spec fn spec_has_zero(&self) -> bool {
        false
    }

    open spec fn spec_zero_based(&self) -> bool {
        false
    }

    open spec fn spec_fixed(&self) -> bool {
        true
    }

    open spec fn spec_fallback(&self) -> Option<FallbackDescription> {
        Some(FallbackDescription { digits: cjk_decimal_digits(), has_zero: true })
    }

    fn fixed(&self) -> bool {
        true
    }

    fn has_zero_digit(&self) -> bool {
        false
    }

    fn zero_based(&self) -> bool {
        false
    }

    fn len(&self) -> usize {
        10
    }

    fn digit(&self, index: usize) -> char {
        let set = cjk_heavenly_stem_set();
        set.digit(index)
    }

    fn fallback(&self) -> Option<DigitSet> {
        Some(cjk_decimal_set())
    }
}

/// The alphabet of cjk earthly branch symbols.
pub open spec fn cjk_earthly_branch_digits() -> Seq<char> {
    seq![
        '\u{5B50}', '\u{4E11}', '\u{5BC5}', '\u{536F}', '\u{8FB0}', '\u{5DF3}', '\u{5348}',
        '\u{672A}', '\u{7533}', '\u{9149}', '\u{620C}', '\u{4EA5}',
    ]
}

/// Returns the alphabet of cjk earthly branch symbols as a concrete digit set.
fn cjk_earthly_branch_set() -> (r: DigitSet)
    ensures
        r.spec_symbols() == cjk_earthly_branch_digits(),
        !r.spec_zero_symbol(),
{
    let mut v: Vec<char> = Vec::new();
    v.push('\u{5B50}');
    v.push('\u{4E11}');
    v.push('\u{5BC5}');
    v.push('\u{536F}');
    v.push('\u{8FB0}');
    v.push('\u{5DF3}');
    v.push('\u{5348}');
    v.push('\u{672A}');
    v.push('\u{7533}');
    v.push('\u{9149}');
    v.push('\u{620C}');
    v.push('\u{4EA5}');
    proof {
        assert(v@ =~= cjk_earthly_branch_digits());
    }
    DigitSet::zeroless(v)
}

/// CJK Earthly Branch symbols.
///
/// This digit collection falls back to [`CjkDecimal`] after the set is
/// enumerated.
#[derive(Default, Debug, Clone, Copy, Eq, PartialEq, Hash)]
pub struct CjkEarthlyBranch;

impl DigitCollection for CjkEarthlyBranch {
    open spec fn spec_digits(&self) -> Seq<char> {
        cjk_earthly_branch_digits()
    }

    open spec fn spec_has_zero(&self) -> bool {
        false
    }

    open spec fn spec_zero_based(&self) -> bool {
        false
    }

    open spec fn spec_fixed(&self) -> bool {
        true
    }

    open spec fn spec_fallback(&self) -> Option<FallbackDescription> {
        Some(FallbackDescription { digits: cjk_decimal_digits(), has_zero: true })
    }

    fn fixed(&self) -> bool {
        true
    }

    fn has_zero_digit(&self) -> bool {
        false
    }

    fn zero_based(&self) -> bool {
        false
    }

    fn len(&self) -> usize {
        12
    }

    fn digit(&self, index: usize) -> char {
        let set = cjk_earthly_branch_set();
        set.digit(index)
    }

    fn fallback(&self) -> Option<DigitSet> {
        Some(cjk_decimal_set())
    }
}

/// Every place of positional formatting is independent of zero-based
/// counting once the first place has been emitted: the zero-based flag only
/// matters for the least significant digit.
proof fn lemma_zeroless_tail_ignores_basis(k: nat, base: nat)
    ensures
        positional_digits(k, base, false, false, false) == positional_digits(
            k,
            base,
            false,
            true,
            false,
        ),
    decreases k,
{
    if k == 0 || base == 0 {
    } else {
        let m = (k - 1) as nat;
        lemma_zeroless_tail_ignores_basis(m / base, base);
    }
}

/// Every digit index the place-value loop emits for a zeroful alphabet lies
/// below the base.
proof fn lemma_zeroful_digits_below_base(n: nat, base: nat, zero_based: bool, first: bool)
    requires
        base >= 2,
    ensures
        forall|k: int|
            0 <= k < positional_digits(n, base, true, zero_based, first).len()
                ==> #[trigger] positional_digits(n, base, true, zero_based, first)[k] < base,
    decreases n, (if first { 1int } else { 0int }),
{
    if n == 0 && !first {
    } else {
        vstd::arithmetic::div_mod::lemma_div_nonincreasing(n as int, base as int);
        if n >= 1 {
            vstd::arithmetic::div_mod::lemma_div_decreases(n as int, base as int);
        }
        lemma_zeroful_digits_below_base(n / base, base, zero_based, false);
        assert(n % base < base) by {
            vstd::arithmetic::div_mod::lemma_mod_division_less_than_divisor(n as int, base as int);
        }
        let prefix = positional_digits(n / base, base, true, zero_based, false);
        let whole = positional_digits(n, base, true, zero_based, first);
        assert(whole == prefix + seq![n % base]);
        assert forall|k: int| 0 <= k < whole.len() implies whole[k] < base by {
            if k < prefix.len() {
                assert(whole[k] == prefix[k]);
            } else {
                assert(whole[k] == n % base);
            }
        }
    }
}

/// After the first place, the digit index sequence of a zeroful alphabet
/// determines the value: equal sequences come from equal values.
proof fn lemma_zeroful_tail_injective(k1: nat, k2: nat, base: nat, zero_based: bool)
    requires
        base >= 2,
        positional_digits(k1, base, true, zero_based, false) == positional_digits(
            k2,
            base,
            true,
            zero_based,
            false,
        ),
    ensures
        k1 == k2,
    decreases k1,
{
    let p1 = positional_digits(k1, base, true, zero_based, false);
    let p2 = positional_digits(k2, base, true, zero_based, false);
    if k1 == 0 {
        if k2 != 0 {
            assert(p2.len() > 0);
            assert(false);
        }
    } else if k2 == 0 {
        assert(p1.len() > 0);
        assert(false);
    } else {
        assert(p1 == positional_digits(k1 / base, base, true, zero_based, false) + seq![k1 % base]);
        assert(p2 == positional_digits(k2 / base, base, true, zero_based, false) + seq![k2 % base]);
        assert(p1.drop_last() =~= positional_digits(k1 / base, base, true, zero_based, false));
        assert(p2.drop_last() =~= positional_digits(k2 / base, base, true, zero_based, false));
        assert(p1.last() == k1 % base && p2.last() == k2 % base);
        vstd::arithmetic::div_mod::lemma_div_decreases(k1 as int, base as int);
        lemma_zeroful_tail_injective(k1 / base, k2 / base, base, zero_based);
        assert(k1 == base * (k1 / base) + k1 % base) by {
            vstd::arithmetic::div_mod::lemma_fundamental_div_mod(k1 as int, base as int);
        }
        assert(k2 == base * (k2 / base) + k2 % base) by {
            vstd::arithmetic::div_mod::lemma_fundamental_div_mod(k2 as int, base as int);
        }
    }
}

/// Positional formatting with a zero symbol assigns distinct character
/// sequences to distinct values, provided the digit symbols are pairwise
/// distinct: the rendering is injective, and (by the formatting contract)
/// total over all values. In particular no two values ever collide, only
/// their numeric order — not any alphabetical order — tells them apart.
pub proof fn lemma_zeroful_format_injective(
    digits: Seq<char>,
    zero_based: bool,
    m: nat,
    n: nat,
)
    requires
        digits.len() >= 2,
        forall|i: int, j: int|
            0 <= i < j < digits.len() ==> digits[i] != digits[j],
        spec_digits_format(digits, true, zero_based, m) == spec_digits_format(
            digits,
            true,
            zero_based,
            n,
        ),
    ensures
        m == n,
{
    let b = digits.len() as nat;
    let dm = positional_digits(m, b, true, zero_based, true);
    let dn = positional_digits(n, b, true, zero_based, true);
    assert(nominal_chars(digits, dm) == nominal_chars(digits, dn));
    lemma_zeroful_digits_below_base(m, b, zero_based, true);
    lemma_zeroful_digits_below_base(n, b, zero_based, true);
    assert(dm.len() == dn.len()) by {
        assert(nominal_chars(digits, dm).len() == dm.len());
        assert(nominal_chars(digits, dn).len() == dn.len());
    }
    assert forall|k: int| 0 <= k < dm.len() implies dm[k] == dn[k] by {
        assert(0 <= k < dn.len());
        assert(dm[k] < b);
        assert(dn[k] < b);
        assert(nominal_chars(digits, dm)[k] == digits[dm[k] as int]);
        assert(nominal_chars(digits, dn)[k] == digits[dn[k] as int]);
        if dm[k] < dn[k] {
            assert(digits[dm[k] as int] != digits[dn[k] as int]);
        }
        if dn[k] < dm[k] {
            assert(digits[dn[k] as int] != digits[dm[k] as int]);
        }
    }
    assert(dm =~= dn);
    assert(dm == positional_digits(m / b, b, true, zero_based, false) + seq![m % b]);
    assert(dn == positional_digits(n / b, b, true, zero_based, false) + seq![n % b]);
    assert(dm.drop_last() =~= positional_digits(m / b, b, true, zero_based, false));
    assert(dn.drop_last() =~= positional_digits(n / b, b, true, zero_based, false));
    lemma_zeroful_tail_injective(m / b, n / b, b, zero_based);
    assert(dm.len() > 0 && dn.len() > 0);
    assert(dm.last() == m % b);
    assert(dn.last() == n % b);
    assert(m % b == n % b);
    assert(m == b * (m / b) + m % b) by {
        vstd::arithmetic::div_mod::lemma_fundamental_div_mod(m as int, b as int);
    }
    assert(n == b * (n / b) + n % b) by {
        vstd::arithmetic::div_mod::lemma_fundamental_div_mod(n as int, b as int);
    }
}

/// Positional formatting with a zero symbol and pairwise distinct digit
/// symbols assigns different character sequences to any two consecutive
/// values.
pub proof fn lemma_zeroful_formats_differ(digits: Seq<char>, zero_based: bool, n: nat)
    requires
        digits.len() >= 2,
        forall|i: int, j: int|
            0 <= i < j < digits.len() ==> digits[i] != digits[j],
    ensures
        spec_digits_format(digits, true, zero_based, n) != spec_digits_format(
            digits,
            true,
            zero_based,
            n + 1,
        ),
{
    if spec_digits_format(digits, true, zero_based, n) == spec_digits_format(
        digits,
        true,
        zero_based,
        n + 1,
    ) {
        lemma_zeroful_format_injective(digits, zero_based, n, n + 1);
    }
}

/// For a zeroless, zero-based alphabet, every value below the alphabet size
/// is a single symbol, the alphabet's last symbol being the final one.
pub proof fn lemma_zeroless_single_symbols(digits: Seq<char>, n: nat)
    requires
        digits.len() >= 1,
        n < digits.len(),
    ensures
        spec_digits_format(digits, false, true, n) == Ok::<Seq<char>, FormatFailure>(
            seq![digits[n as int]],
        ),
{
    let b = digits.len() as nat;
    assert(n / b == 0 && n % b == n) by {
        vstd::arithmetic::div_mod::lemma_basic_div(n as int, b as int);
        vstd::arithmetic::div_mod::lemma_small_mod(n, b);
    }
    assert(positional_digits(0, b, false, true, false) =~= Seq::<nat>::empty());
    assert(positional_digits(n, b, false, true, true) =~= seq![n]);
    assert(nominal_chars(digits, seq![n]) =~= seq![digits[n as int]]);
}

/// For a zeroless, zero-based alphabet of size N, the value N is the first
/// one rendered with two symbols, both being the alphabet's first symbol.
pub proof fn lemma_zeroless_first_double_symbol(digits: Seq<char>)
    requires
        digits.len() >= 1,
    ensures
        spec_digits_format(digits, false, true, digits.len() as nat) == Ok::<
            Seq<char>,
            FormatFailure,
        >(seq![digits[0], digits[0]]),
{
    let b = digits.len() as nat;
    assert(b / b == 1) by {
        vstd::arithmetic::div_mod::lemma_div_by_self(b as int);
    }
    assert(b % b == 0) by {
        vstd::arithmetic::div_mod::lemma_mod_self_0(b as int);
    }
    assert((0 as nat) / b == 0 && (0 as nat) % b == 0) by {
        vstd::arithmetic::div_mod::lemma_basic_div(0, b as int);
        vstd::arithmetic::div_mod::lemma_small_mod(0, b);
    }
    assert(positional_digits(0, b, false, true, false) =~= Seq::<nat>::empty());
    assert(positional_digits(1, b, false, true, false) =~= seq![0nat]);
    assert(positional_digits(b, b, false, true, true) =~= seq![0nat, 0nat]);
    assert(nominal_chars(digits, seq![0nat, 0nat]) =~= seq![digits[0], digits[0]]);
}

/// Forcing one-based counting on a zeroless alphabet makes the value 0
/// unrepresentable and shifts every other value's rendering down by exactly
/// one compared to the zero-based form: the one-based rendering of `n + 1`
/// is the zero-based rendering of `n`, for zeroless alphabets of any size.
pub proof fn lemma_one_based_shift(digits: Seq<char>, n: nat)
    ensures
        spec_digits_format(digits, false, false, 0) == Err::<Seq<char>, FormatFailure>(
            FormatFailure::NoZeroSymbol,
        ),
        spec_digits_format(digits, false, false, n + 1) == spec_digits_format(
            digits,
            false,
            true,
            n,
        ),
{
    if digits.len() == 0 {
    } else {
        let b = digits.len() as nat;
        lemma_zeroless_tail_ignores_basis(n / b, b);
        assert(positional_digits(n + 1, b, false, false, true) == positional_digits(
            n / b,
            b,
            false,
            false,
            false,
        ) + seq![n % b]);
        assert(positional_digits(n, b, false, true, true) == positional_digits(
            n / b,
            b,
            false,
            true,
            false,
        ) + seq![n % b]);
    }
}

/// After the first place, the digit count of a zeroful rendering is monotone
/// in the value.
proof fn lemma_zeroful_tail_len_monotone(k1: nat, k2: nat, base: nat, zero_based: bool)
    requires
        base >= 2,
        k1 <= k2,
    ensures
        positional_digits(k1, base, true, zero_based, false).len() <= positional_digits(
            k2,
            base,
            true,
            zero_based,
            false,
        ).len(),
    decreases k2,
{
    if k1 == 0 {
    } else {
        assert(positional_digits(k1, base, true, zero_based, false) == positional_digits(
            k1 / base,
            base,
            true,
            zero_based,
            false,
        ) + seq![k1 % base]);
        assert(positional_digits(k2, base, true, zero_based, false) == positional_digits(
            k2 / base,
            base,
            true,
            zero_based,
            false,
        ) + seq![k2 % base]);
        vstd::arithmetic::div_mod::lemma_div_is_ordered(k1 as int, k2 as int, base as int);
        vstd::arithmetic::div_mod::lemma_div_decreases(k2 as int, base as int);
        lemma_zeroful_tail_len_monotone(k1 / base, k2 / base, base, zero_based);
    }
}

/// For a positional system with a zero symbol, larger values never render
/// shorter: formatting succeeds for every value and the character count is
/// monotone in the value. No alphabetical order is promised beyond this;
/// together with the injectivity of the rendering, values never collide and
/// never shrink.
pub proof fn lemma_zeroful_format_never_shorter(
    digits: Seq<char>,
    zero_based: bool,
    m: nat,
    n: nat,
)
    requires
        digits.len() >= 2,
        n <= m,
    ensures
        ({
            let small = spec_digits_format(digits, true, zero_based, n);
            let large = spec_digits_format(digits, true, zero_based, m);
            small is Ok && large is Ok && small->Ok_0.len() <= large->Ok_0.len()
        }),
{
    let b = digits.len() as nat;
    let dn = positional_digits(n, b, true, zero_based, true);
    let dm = positional_digits(m, b, true, zero_based, true);
    assert(dn == positional_digits(n / b, b, true, zero_based, false) + seq![n % b]);
    assert(dm == positional_digits(m / b, b, true, zero_based, false) + seq![m % b]);
    vstd::arithmetic::div_mod::lemma_div_is_ordered(n as int, m as int, b as int);
    lemma_zeroful_tail_len_monotone(n / b, m / b, b, zero_based);
    assert(nominal_chars(digits, dn).len() == dn.len());
    assert(nominal_chars(digits, dm).len() == dm.len());
}

} // verus!
