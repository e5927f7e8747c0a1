//! Additive numbering systems: greedy subtraction against a table of
//! symbol/value pairs in descending value order, as used by Roman numerals
//! and several historic scripts.

use crate::nominalstring::NominalString;
use crate::{Error, FormatFailure, NominalSystem, UnsignedInteger};
use vstd::prelude::*;

verus! {

/// The mathematical view of a symbol table: each entry is the symbol's
/// characters together with its value.
pub open spec fn additive_entries(symbols: Seq<(&'static str, u128)>) -> Seq<(Seq<char>, nat)> {
    symbols.map_values(|e: (&'static str, u128)| (e.0@, e.1 as nat))
}

/// The characters the greedy subtraction loop emits for `remaining`, working
/// from entry `i` of the table onward: while an entry's nonzero value fits,
/// it is subtracted and its symbol appended; entries of value 0 end the
/// scan.
pub open spec fn greedy_symbols(entries: Seq<(Seq<char>, nat)>, i: int, remaining: nat) -> Seq<
    char,
>
    decreases entries.len() - i, remaining,
{
    if i < 0 || i >= entries.len() {
        seq![]
    } else if entries[i].1 == 0 {
        seq![]
    } else if remaining >= entries[i].1 {
        entries[i].0 + greedy_symbols(entries, i, (remaining - entries[i].1) as nat)
    } else {
        greedy_symbols(entries, i + 1, remaining)
    }
}

/// The outcome an additive symbol table assigns to the value `n`: the
/// designated zero symbol (if any) for 0, and the greedy subtraction
/// rendering otherwise.
pub open spec fn spec_additive_format(
    entries: Seq<(Seq<char>, nat)>,
    zero: Option<Seq<char>>,
    n: nat,
) -> Result<Seq<char>, FormatFailure> {
    if n == 0 {
        match zero {
            Some(z) => Ok(z),
            None => Err(FormatFailure::NoZeroSymbol),
        }
    } else {
        Ok(greedy_symbols(entries, 0, n))
    }
}

/// Formats `nominal` by greedy subtraction against `symbols`, using `zero`
/// as the designated symbol for the value 0.
pub(crate) fn format_additive<T: UnsignedInteger>(
    symbols: &Vec<(&'static str, u128)>,
    zero: Option<&'static str>,
    nominal: T,
) -> (r: Result<NominalString, Error<T>>)
    ensures
        crate::format_result_matches(
            r,
            spec_additive_format(
                additive_entries(symbols@),
                match zero {
                    Some(z) => Some(z@),
                    None => None,
                },
                nominal.as_nat(),
            ),
            nominal,
        ),
{
    let ghost entries = additive_entries(symbols@);
    let n = nominal.widen();
    if n == 0 {
        return match zero {
            Some(z) => Ok(NominalString::from_str_slice(z)),
            None => Err(Error::NoZeroSymbol),
        };
    }
    let mut formatted = NominalString::new();
    let mut remaining = n;
    let mut i: usize = 0;
    let mut done = false;
    proof {
        assert(Seq::<char>::empty() + greedy_symbols(entries, 0, n as nat) =~= greedy_symbols(
            entries,
            0,
            n as nat,
        ));
    }
    while i < symbols.len() && !done
        invariant
            entries == additive_entries(symbols@),
            0 <= i <= symbols@.len(),
            greedy_symbols(entries, 0, n as nat) == formatted@ + (if done {
                Seq::<char>::empty()
            } else {
                greedy_symbols(entries, i as int, remaining as nat)
            }),
        decreases symbols@.len() - i + (if done { 0int } else { 1int }),
    {
        let entry = symbols[i];
        let symbol = entry.0;
        let value = entry.1;
        proof {
            assert(entries[i as int] == (symbol@, value as nat));
        }
        if value == 0 {
            done = true;
        } else {
            while remaining >= value
                invariant
                    entries == additive_entries(symbols@),
                    0 <= i < symbols@.len(),
                    entries[i as int] == (symbol@, value as nat),
                    value > 0,
                    greedy_symbols(entries, 0, n as nat) == formatted@ + greedy_symbols(
                        entries,
                        i as int,
                        remaining as nat,
                    ),
                decreases remaining,
            {
                remaining = remaining - value;
                let ghost before = formatted@;
                let _ = formatted.try_push_str(symbol);
                proof {
                    assert(before + (symbol@ + greedy_symbols(
                        entries,
                        i as int,
                        remaining as nat,
                    )) =~= (before + symbol@) + greedy_symbols(entries, i as int, remaining as nat));
                }
            }
            i = i + 1;
        }
    }
    Ok(formatted)
}

/// A set of additive symbols that form a [`NominalSystem`].
pub struct AdditiveSet {
    symbols: Vec<(&'static str, u128)>,
    zero: Option<&'static str>,
}

impl AdditiveSet {
    /// The symbol table of this set.
    pub closed spec fn spec_entries(&self) -> Seq<(Seq<char>, nat)> {
        additive_entries(self.symbols@)
    }

    /// The designated symbol for the value 0, if the table ends in a
    /// zero-valued entry.
    pub closed spec fn spec_zero(&self) -> Option<Seq<char>> {
        match self.zero {
            Some(z) => Some(z@),
            None => None,
        }
    }

    /// Creates a new additive set containing `symbols`.
    ///
    /// `symbols` must be specified in strictly descending value order; an
    /// ending entry of value 0 becomes the designated zero symbol.
    #[must_use]
    pub fn new(symbols: Vec<(&'static str, u128)>) -> (r: Self)
        requires
            forall|i: int|
                0 <= i && i + 1 < symbols@.len() ==> symbols@[i].1 > #[trigger] symbols@[i + 1].1,
        ensures
            r.spec_entries() == additive_entries(symbols@),
            r.spec_zero() == (if symbols@.len() > 0 && symbols@.last().1 == 0 {
                Some(symbols@.last().0@)
            } else {
                None::<Seq<char>>
            }),
    {
        let len = symbols.len();
        let zero = if len > 0 {
            let last = symbols[len - 1];
            if last.1 == 0 {
                Some(last.0)
            } else {
                None
            }
        } else {
            None
        };
        AdditiveSet { symbols, zero }
    }
}

impl<T: UnsignedInteger> NominalSystem<T> for AdditiveSet {
    open spec fn spec_format(&self, n: nat) -> Result<Seq<char>, FormatFailure> {
        spec_additive_format(self.spec_entries(), self.spec_zero(), n)
    }

    fn try_format_nominal(&self, nominal: T) -> (r: Result<NominalString, Error<T>>) {
        format_additive(&self.symbols, self.zero, nominal)
    }
}

/// The symbol table behind [`RomanLower`], in descending value order.
pub open spec fn roman_lower_table() -> Seq<(Seq<char>, nat)> {
    seq![
        ("\u{6D}\u{305}"@, 1000000 as nat),
        ("\u{64}\u{305}\u{6D}\u{305}"@, 900000 as nat),
        ("\u{64}\u{305}"@, 500000 as nat),
        ("\u{63}\u{305}\u{64}\u{305}"@, 400000 as nat),
        ("\u{63}\u{305}"@, 100000 as nat),
        ("\u{6C}\u{305}\u{63}\u{305}"@, 90000 as nat),
        ("\u{6C}\u{305}"@, 50000 as nat),
        ("\u{78}\u{305}\u{6C}\u{305}"@, 40000 as nat),
        ("\u{78}\u{305}"@, 10000 as nat),
        ("\u{69}\u{305}\u{78}\u{305}"@, 9000 as nat),
        ("\u{76}\u{305}"@, 5000 as nat),
        ("\u{69}\u{305}\u{76}\u{305}"@, 4000 as nat),
        ("\u{6D}"@, 1000 as nat),
        ("\u{63}\u{6D}"@, 900 as nat),
        ("\u{64}"@, 500 as nat),
        ("\u{63}\u{64}"@, 400 as nat),
        ("\u{63}"@, 100 as nat),
        ("\u{78}\u{63}"@, 90 as nat),
        ("\u{6C}"@, 50 as nat),
        ("\u{78}\u{6C}"@, 40 as nat),
        ("\u{78}"@, 10 as nat),
        ("\u{69}\u{78}"@, 9 as nat),
        ("\u{76}"@, 5 as nat),
        ("\u{69}\u{76}"@, 4 as nat),
        ("\u{69}"@, 1 as nat),
        ("\u{6E}"@, 0 as nat),
    ]
}

/// Returns the symbol table behind [`RomanLower`] as a concrete vector.
#[verifier::rlimit(100)]
fn roman_lower_symbols() -> (r: Vec<(&'static str, u128)>)
    ensures
        additive_entries(r@) == roman_lower_table(),
{
    let mut v: Vec<(&'static str, u128)> = Vec::new();
    v.push(("\u{6D}\u{305}", 1000000));
    v.push(("\u{64}\u{305}\u{6D}\u{305}", 900000));
    v.push(("\u{64}\u{305}", 500000));
    v.push(("\u{63}\u{305}\u{64}\u{305}", 400000));
    v.push(("\u{63}\u{305}", 100000));
    v.push(("\u{6C}\u{305}\u{63}\u{305}", 90000));
    v.push(("\u{6C}\u{305}", 50000));
    v.push(("\u{78}\u{305}\u{6C}\u{305}", 40000));
    v.push(("\u{78}\u{305}", 10000));
    v.push(("\u{69}\u{305}\u{78}\u{305}", 9000));
    v.push(("\u{76}\u{305}", 5000));
    v.push(("\u{69}\u{305}\u{76}\u{305}", 4000));
    v.push(("\u{6D}", 1000));
    v.push(("\u{63}\u{6D}", 900));
    v.push(("\u{64}", 500));
    v.push(("\u{63}\u{64}", 400));
    v.push(("\u{63}", 100));
    v.push(("\u{78}\u{63}", 90));
    v.push(("\u{6C}", 50));
    v.push(("\u{78}\u{6C}", 40));
    v.push(("\u{78}", 10));
    v.push(("\u{69}\u{78}", 9));
    v.push(("\u{76}", 5));
    v.push(("\u{69}\u{76}", 4));
    v.push(("\u{69}", 1));
    v.push(("\u{6E}", 0));
    proof {
        assert(additive_entries(v@) =~= roman_lower_table());
    }
    v
}

/// Lowercase Roman numerals.
///
/// This encoding utilizes vinculum notation for numbers 4,000 and above:
/// an overline multiplies a symbol's value by 1,000.
pub struct RomanLower;

impl<T: UnsignedInteger> NominalSystem<T> for RomanLower {
    open spec fn spec_format(&self, n: nat) -> Result<Seq<char>, FormatFailure> {
        spec_additive_format(roman_lower_table(), Some("\u{6E}"@), n)
    }

    fn try_format_nominal(&self, nominal: T) -> (r: Result<NominalString, Error<T>>) {
        let symbols = roman_lower_symbols();
        format_additive(&symbols, Some("\u{6E}"), nominal)
    }
}

/// The symbol table behind [`RomanUpper`], in descending value order.
pub open spec fn roman_upper_table() -> Seq<(Seq<char>, nat)> {
    seq![
        ("\u{4D}\u{305}"@, 1000000 as nat),
        ("\u{44}\u{305}\u{4D}\u{305}"@, 900000 as nat),
        ("\u{44}\u{305}"@, 500000 as nat),
        ("\u{43}\u{305}\u{44}\u{305}"@, 400000 as nat),
        ("\u{43}\u{305}"@, 100000 as nat),
        ("\u{4C}\u{305}\u{43}\u{305}"@, 90000 as nat),
        ("\u{4C}\u{305}"@, 50000 as nat),
        ("\u{58}\u{305}\u{4C}\u{305}"@, 40000 as nat),
        ("\u{58}\u{305}"@, 10000 as nat),
        ("\u{49}\u{305}\u{58}\u{305}"@, 9000 as nat),
        ("\u{56}\u{305}"@, 5000 as nat),
        ("\u{49}\u{305}\u{56}\u{305}"@, 4000 as nat),
        ("\u{4D}"@, 1000 as nat),
        ("\u{43}\u{4D}"@, 900 as nat),
        ("\u{44}"@, 500 as nat),
        ("\u{43}\u{44}"@, 400 as nat),
        ("\u{43}"@, 100 as nat),
        ("\u{58}\u{43}"@, 90 as nat),
        ("\u{4C}"@, 50 as nat),
        ("\u{58}\u{4C}"@, 40 as nat),
        ("\u{58}"@, 10 as nat),
        ("\u{49}\u{58}"@, 9 as nat),
        ("\u{56}"@, 5 as nat),
        ("\u{49}\u{56}"@, 4 as nat),
        ("\u{49}"@, 1 as nat),
        ("\u{4E}"@, 0 as nat),
    ]
}

/// Returns the symbol table behind [`RomanUpper`] as a concrete vector.
#[verifier::rlimit(100)]
fn roman_upper_symbols() -> (r: Vec<(&'static str, u128)>)
    ensures
        additive_entries(r@) == roman_upper_table(),
{
    let mut v: Vec<(&'static str, u128)> = Vec::new();
    v.push(("\u{4D}\u{305}", 1000000));
    v.push(("\u{44}\u{305}\u{4D}\u{305}", 900000));
    v.push(("\u{44}\u{305}", 500000));
    v.push(("\u{43}\u{305}\u{44}\u{305}", 400000));
    v.push(("\u{43}\u{305}", 100000));
    v.push(("\u{4C}\u{305}\u{43}\u{305}", 90000));
    v.push(("\u{4C}\u{305}", 50000));
    v.push(("\u{58}\u{305}\u{4C}\u{305}", 40000));
    v.push(("\u{58}\u{305}", 10000));
    v.push(("\u{49}\u{305}\u{58}\u{305}", 9000));
    v.push(("\u{56}\u{305}", 5000));
    v.push(("\u{49}\u{305}\u{56}\u{305}", 4000));
    v.push(("\u{4D}", 1000));
    v.push(("\u{43}\u{4D}", 900));
    v.push(("\u{44}", 500));
    v.push(("\u{43}\u{44}", 400));
    v.push(("\u{43}", 100));
    v.push(("\u{58}\u{43}", 90));
    v.push(("\u{4C}", 50));
    v.push(("\u{58}\u{4C}", 40));
    v.push(("\u{58}", 10));
    v.push(("\u{49}\u{58}", 9));
    v.push(("\u{56}", 5));
    v.push(("\u{49}\u{56}", 4));
    v.push(("\u{49}", 1));
    v.push(("\u{4E}", 0));
    proof {
        assert(additive_entries(v@) =~= roman_upper_table());
    }
    v
}

/// Uppercase Roman numerals.
///
/// This encoding utilizes vinculum notation for numbers 4,000 and above:
/// an overline multiplies a symbol's value by 1,000.
pub struct RomanUpper;

impl<T: UnsignedInteger> NominalSystem<T> for RomanUpper {
    open spec fn spec_format(&self, n: nat) -> Result<Seq<char>, FormatFailure> {
        spec_additive_format(roman_upper_table(), Some("\u{4E}"@), n)
    }

    fn try_format_nominal(&self, nominal: T) -> (r: Result<NominalString, Error<T>>) {
        let symbols = roman_upper_symbols();
        format_additive(&symbols, Some("\u{4E}"), nominal)
    }
}

/// The symbol table behind [`ArmenianUpper`], in descending value order.
pub open spec fn armenian_upper_table() -> Seq<(Seq<char>, nat)> {
    seq![
        ("\u{554}"@, 9000 as nat),
        ("\u{553}"@, 8000 as nat),
        ("\u{552}"@, 7000 as nat),
        ("\u{551}"@, 6000 as nat),
        ("\u{550}"@, 5000 as nat),
        ("\u{54F}"@, 4000 as nat),
        ("\u{54E}"@, 3000 as nat),
        ("\u{54D}"@, 2000 as nat),
        ("\u{54C}"@, 1000 as nat),
        ("\u{54B}"@, 900 as nat),
        ("\u{54A}"@, 800 as nat),
        ("\u{549}"@, 700 as nat),
        ("\u{548}"@, 600 as nat),
        ("\u{547}"@, 500 as nat),
        ("\u{546}"@, 400 as nat),
        ("\u{545}"@, 300 as nat),
        ("\u{544}"@, 200 as nat),
        ("\u{543}"@, 100 as nat),
        ("\u{542}"@, 90 as nat),
        ("\u{541}"@, 80 as nat),
        ("\u{540}"@, 70 as nat),
        ("\u{53F}"@, 60 as nat),
        ("\u{53E}"@, 50 as nat),
        ("\u{53D}"@, 40 as nat),
        ("\u{53C}"@, 30 as nat),
        ("\u{53B}"@, 20 as nat),
        ("\u{53A}"@, 10 as nat),
        ("\u{539}"@, 9 as nat),
        ("\u{538}"@, 8 as nat),
        ("\u{537}"@, 7 as nat),
        ("\u{536}"@, 6 as nat),
        ("\u{535}"@, 5 as nat),
        ("\u{534}"@, 4 as nat),
        ("\u{533}"@, 3 as nat),
        ("\u{532}"@, 2 as nat),
        ("\u{531}\u{20}"@, 1 as nat),
    ]
}

/// Returns the symbol table behind [`ArmenianUpper`] as a concrete vector.
#[verifier::rlimit(100)]
fn armenian_upper_symbols() -> (r: Vec<(&'static str, u128)>)
    ensures
        additive_entries(r@) == armenian_upper_table(),
{
    let mut v: Vec<(&'static str, u128)> = Vec::new();
    v.push(("\u{554}", 9000));
    v.push(("\u{553}", 8000));
    v.push(("\u{552}", 7000));
    v.push(("\u{551}", 6000));
    v.push(("\u{550}", 5000));
    v.push(("\u{54F}", 4000));
    v.push(("\u{54E}", 3000));
    v.push(("\u{54D}", 2000));
    v.push(("\u{54C}", 1000));
    v.push(("\u{54B}", 900));
    v.push(("\u{54A}", 800));
    v.push(("\u{549}", 700));
    v.push(("\u{548}", 600));
    v.push(("\u{547}", 500));
    v.push(("\u{546}", 400));
    v.push(("\u{545}", 300));
    v.push(("\u{544}", 200));
    v.push(("\u{543}", 100));
    v.push(("\u{542}", 90));
    v.push(("\u{541}", 80));
    v.push(("\u{540}", 70));
    v.push(("\u{53F}", 60));
    v.push(("\u{53E}", 50));
    v.push(("\u{53D}", 40));
    v.push(("\u{53C}", 30));
    v.push(("\u{53B}", 20));
    v.push(("\u{53A}", 10));
    v.push(("\u{539}", 9));
    v.push(("\u{538}", 8));
    v.push(("\u{537}", 7));
    v.push(("\u{536}", 6));
    v.push(("\u{535}", 5));
    v.push(("\u{534}", 4));
    v.push(("\u{533}", 3));
    v.push(("\u{532}", 2));
    v.push(("\u{531}\u{20}", 1));
    proof {
        assert(additive_entries(v@) =~= armenian_upper_table());
    }
    v
}

/// Uppercase Armenian numbering.
pub struct ArmenianUpper;

impl<T: UnsignedInteger> NominalSystem<T> for ArmenianUpper {
    open spec fn spec_format(&self, n: nat) -> Result<Seq<char>, FormatFailure> {
        spec_additive_format(armenian_upper_table(), None, n)
    }

    fn try_format_nominal(&self, nominal: T) -> (r: Result<NominalString, Error<T>>) {
        let symbols = armenian_upper_symbols();
        format_additive(&symbols, None, nominal)
    }
}

/// The symbol table behind [`ArmenianLower`], in descending value order.
pub open spec fn armenian_lower_table() -> Seq<(Seq<char>, nat)> {
    seq![
        ("\u{584}"@, 9000 as nat),
        ("\u{583}"@, 8000 as nat),
        ("\u{582}"@, 7000 as nat),
        ("\u{581}"@, 6000 as nat),
        ("\u{580}"@, 5000 as nat),
        ("\u{57F}"@, 4000 as nat),
        ("\u{57E}"@, 3000 as nat),
        ("\u{57D}"@, 2000 as nat),
        ("\u{57C}"@, 1000 as nat),
        ("\u{57B}"@, 900 as nat),
        ("\u{57A}"@, 800 as nat),
        ("\u{579}"@, 700 as nat),
        ("\u{578}"@, 600 as nat),
        ("\u{577}"@, 500 as nat),
        ("\u{576}"@, 400 as nat),
        ("\u{575}"@, 300 as nat),
        ("\u{574}"@, 200 as nat),
        ("\u{573}"@, 100 as nat),
        ("\u{572}"@, 90 as nat),
        ("\u{571}"@, 80 as nat),
        ("\u{570}"@, 70 as nat),
        ("\u{56F}"@, 60 as nat),
        ("\u{56E}"@, 50 as nat),
        ("\u{56D}"@, 40 as nat),
        ("\u{56C}"@, 30 as nat),
        ("\u{56B}"@, 20 as nat),
        ("\u{56A}"@, 10 as nat),
        ("\u{569}"@, 9 as nat),
        ("\u{568}"@, 8 as nat),
        ("\u{567}"@, 7 as nat),
        ("\u{566}"@, 6 as nat),
        ("\u{565}"@, 5 as nat),
        ("\u{564}"@, 4 as nat),
        ("\u{563}"@, 3 as nat),
        ("\u{562}"@, 2 as nat),
        ("\u{561}"@, 1 as nat),
    ]
}

/// Returns the symbol table behind [`ArmenianLower`] as a concrete vector.
#[verifier::rlimit(100)]
fn armenian_lower_symbols() -> (r: Vec<(&'static str, u128)>)
    ensures
        additive_entries(r@) == armenian_lower_table(),
{
    let mut v: Vec<(&'static str, u128)> = Vec::new();
    v.push(("\u{584}", 9000));
    v.push(("\u{583}", 8000));
    v.push(("\u{582}", 7000));
    v.push(("\u{581}", 6000));
    v.push(("\u{580}", 5000));
    v.push(("\u{57F}", 4000));
    v.push(("\u{57E}", 3000));
    v.push(("\u{57D}", 2000));
    v.push(("\u{57C}", 1000));
    v.push(("\u{57B}", 900));
    v.push(("\u{57A}", 800));
    v.push(("\u{579}", 700));
    v.push(("\u{578}", 600));
    v.push(("\u{577}", 500));
    v.push(("\u{576}", 400));
    v.push(("\u{575}", 300));
    v.push(("\u{574}", 200));
    v.push(("\u{573}", 100));
    v.push(("\u{572}", 90));
    v.push(("\u{571}", 80));
    v.push(("\u{570}", 70));
    v.push(("\u{56F}", 60));
    v.push(("\u{56E}", 50));
    v.push(("\u{56D}", 40));
    v.push(("\u{56C}", 30));
    v.push(("\u{56B}", 20));
    v.push(("\u{56A}", 10));
    v.push(("\u{569}", 9));
    v.push(("\u{568}", 8));
    v.push(("\u{567}", 7));
    v.push(("\u{566}", 6));
    v.push(("\u{565}", 5));
    v.push(("\u{564}", 4));
    v.push(("\u{563}", 3));
    v.push(("\u{562}", 2));
    v.push(("\u{561}", 1));
    proof {
        assert(additive_entries(v@) =~= armenian_lower_table());
    }
    v
}

/// Lowercase Armenian numbering.
pub struct ArmenianLower;

impl<T: UnsignedInteger> NominalSystem<T> for ArmenianLower {
    open spec fn spec_format(&self, n: nat) -> Result<Seq<char>, FormatFailure> {
        spec_additive_format(armenian_lower_table(), None, n)
    }

    fn try_format_nominal(&self, nominal: T) -> (r: Result<NominalString, Error<T>>) {
        let symbols = armenian_lower_symbols();
        format_additive(&symbols, None, nominal)
    }
}

/// The symbol table behind [`Georgian`], in descending value order.
pub open spec fn georgian_table() -> Seq<(Seq<char>, nat)> {
    seq![
        ("\u{10F5}"@, 10000 as nat),
        ("\u{10F0}"@, 9000 as nat),
        ("\u{10EF}"@, 8000 as nat),
        ("\u{10F4}"@, 7000 as nat),
        ("\u{10EE}"@, 6000 as nat),
        ("\u{10ED}"@, 5000 as nat),
        ("\u{10EC}"@, 4000 as nat),
        ("\u{10EB}"@, 3000 as nat),
        ("\u{10EA}"@, 2000 as nat),
        ("\u{10E9}"@, 1000 as nat),
        ("\u{10E8}"@, 900 as nat),
        ("\u{10E7}"@, 800 as nat),
        ("\u{10E6}"@, 700 as nat),
        ("\u{10E5}"@, 600 as nat),
        ("\u{10E4}"@, 500 as nat),
        ("\u{10F3}"@, 400 as nat),
        ("\u{10E2}"@, 300 as nat),
        ("\u{10E1}"@, 200 as nat),
        ("\u{10E0}"@, 100 as nat),
        ("\u{10DF}"@, 90 as nat),
        ("\u{10DE}"@, 80 as nat),
        ("\u{10DD}"@, 70 as nat),
        ("\u{10F2}"@, 60 as nat),
        ("\u{10DC}"@, 50 as nat),
        ("\u{10DB}"@, 40 as nat),
        ("\u{10DA}"@, 30 as nat),
        ("\u{10D9}"@, 20 as nat),
        ("\u{10D8}"@, 10 as nat),
        ("\u{10D7}"@, 9 as nat),
        ("\u{10F1}"@, 8 as nat),
        ("\u{10D6}"@, 7 as nat),
        ("\u{10D5}"@, 6 as nat),
        ("\u{10D4}"@, 5 as nat),
        ("\u{10D3}"@, 4 as nat),
        ("\u{10D2}"@, 3 as nat),
        ("\u{10D1}"@, 2 as nat),
        ("\u{10D0}"@, 1 as nat),
    ]
}

/// Returns the symbol table behind [`Georgian`] as a concrete vector.
#[verifier::rlimit(100)]
fn georgian_symbols() -> (r: Vec<(&'static str, u128)>)
    ensures
        additive_entries(r@) == georgian_table(),
{
    let mut v: Vec<(&'static str, u128)> = Vec::new();
    v.push(("\u{10F5}", 10000));
    v.push(("\u{10F0}", 9000));
    v.push(("\u{10EF}", 8000));
    v.push(("\u{10F4}", 7000));
    v.push(("\u{10EE}", 6000));
    v.push(("\u{10ED}", 5000));
    v.push(("\u{10EC}", 4000));
    v.push(("\u{10EB}", 3000));
    v.push(("\u{10EA}", 2000));
    v.push(("\u{10E9}", 1000));
    v.push(("\u{10E8}", 900));
    v.push(("\u{10E7}", 800));
    v.push(("\u{10E6}", 700));
    v.push(("\u{10E5}", 600));
    v.push(("\u{10E4}", 500));
    v.push(("\u{10F3}", 400));
    v.push(("\u{10E2}", 300));
    v.push(("\u{10E1}", 200));
    v.push(("\u{10E0}", 100));
    v.push(("\u{10DF}", 90));
    v.push(("\u{10DE}", 80));
    v.push(("\u{10DD}", 70));
    v.push(("\u{10F2}", 60));
    v.push(("\u{10DC}", 50));
    v.push(("\u{10DB}", 40));
    v.push(("\u{10DA}", 30));
    v.push(("\u{10D9}", 20));
    v.push(("\u{10D8}", 10));
    v.push(("\u{10D7}", 9));
    v.push(("\u{10F1}", 8));
    v.push(("\u{10D6}", 7));
    v.push(("\u{10D5}", 6));
    v.push(("\u{10D4}", 5));
    v.push(("\u{10D3}", 4));
    v.push(("\u{10D2}", 3));
    v.push(("\u{10D1}", 2));
    v.push(("\u{10D0}", 1));
    proof {
        assert(additive_entries(v@) =~= georgian_table());
    }
    v
}

/// Traditional Georgian numbering.
pub struct Georgian;

impl<T: UnsignedInteger> NominalSystem<T> for Georgian {
    open spec fn spec_format(&self, n: nat) -> Result<Seq<char>, FormatFailure> {
        spec_additive_format(georgian_table(), None, n)
    }

    fn try_format_nominal(&self, nominal: T) -> (r: Result<NominalString, Error<T>>) {
        let symbols = georgian_symbols();
        format_additive(&symbols, None, nominal)
    }
}

/// The symbol table behind [`JapaneseFormal`], in descending value order.
pub open spec fn japanese_formal_table() -> Seq<(Seq<char>, nat)> {
    seq![
        ("\u{4E5D}\u{9621}"@, 9000 as nat),
        ("\u{516B}\u{9621}"@, 8000 as nat),
        ("\u{4E03}\u{9621}"@, 7000 as nat),
        ("\u{516D}\u{9621}"@, 6000 as nat),
        ("\u{4F0D}\u{9621}"@, 5000 as nat),
        ("\u{56DB}\u{9621}"@, 4000 as nat),
        ("\u{53C2}\u{9621}"@, 3000 as nat),
        ("\u{5F10}\u{9621}"@, 2000 as nat),
        ("\u{58F1}\u{9621}"@, 1000 as nat),
        ("\u{4E5D}\u{767E}"@, 900 as nat),
        ("\u{516B}\u{767E}"@, 800 as nat),
        ("\u{4E03}\u{767E}"@, 700 as nat),
        ("\u{516D}\u{767E}"@, 600 as nat),
        ("\u{4F0D}\u{767E}"@, 500 as nat),
        ("\u{56DB}\u{767E}"@, 400 as nat),
        ("\u{53C2}\u{767E}"@, 300 as nat),
        ("\u{5F10}\u{767E}"@, 200 as nat),
        ("\u{58F1}\u{767E}"@, 100 as nat),
        ("\u{4E5D}\u{62FE}"@, 90 as nat),
        ("\u{516B}\u{62FE}"@, 80 as nat),
        ("\u{4E03}\u{62FE}"@, 70 as nat),
        ("\u{516D}\u{62FE}"@, 60 as nat),
        ("\u{4F0D}\u{62FE}"@, 50 as nat),
        ("\u{56DB}\u{62FE}"@, 40 as nat),
        ("\u{53C2}\u{62FE}"@, 30 as nat),
        ("\u{5F10}\u{62FE}"@, 20 as nat),
        ("\u{58F1}\u{62FE}"@, 10 as nat),
        ("\u{4E5D}"@, 9 as nat),
        ("\u{516B}"@, 8 as nat),
        ("\u{4E03}"@, 7 as nat),
        ("\u{516D}"@, 6 as nat),
        ("\u{4F0D}"@, 5 as nat),
        ("\u{56DB}"@, 4 as nat),
        ("\u{53C2}"@, 3 as nat),
        ("\u{5F10}"@, 2 as nat),
        ("\u{58F1}"@, 1 as nat),
        ("\u{96F6}"@, 0 as nat),
    ]
}

/// Returns the symbol table behind [`JapaneseFormal`] as a concrete vector.
#[verifier::rlimit(100)]
fn japanese_formal_symbols() -> (r: Vec<(&'static str, u128)>)
    ensures
        additive_entries(r@) == japanese_formal_table(),
{
    let mut v: Vec<(&'static str, u128)> = Vec::new();
    v.push(("\u{4E5D}\u{9621}", 9000));
    v.push(("\u{516B}\u{9621}", 8000));
    v.push(("\u{4E03}\u{9621}", 7000));
    v.push(("\u{516D}\u{9621}", 6000));
    v.push(("\u{4F0D}\u{9621}", 5000));
    v.push(("\u{56DB}\u{9621}", 4000));
    v.push(("\u{53C2}\u{9621}", 3000));
    v.push(("\u{5F10}\u{9621}", 2000));
    v.push(("\u{58F1}\u{9621}", 1000));
    v.push(("\u{4E5D}\u{767E}", 900));
    v.push(("\u{516B}\u{767E}", 800));
    v.push(("\u{4E03}\u{767E}", 700));
    v.push(("\u{516D}\u{767E}", 600));
    v.push(("\u{4F0D}\u{767E}", 500));
    v.push(("\u{56DB}\u{767E}", 400));
    v.push(("\u{53C2}\u{767E}", 300));
    v.push(("\u{5F10}\u{767E}", 200));
    v.push(("\u{58F1}\u{767E}", 100));
    v.push(("\u{4E5D}\u{62FE}", 90));
    v.push(("\u{516B}\u{62FE}", 80));
    v.push(("\u{4E03}\u{62FE}", 70));
    v.push(("\u{516D}\u{62FE}", 60));
    v.push(("\u{4F0D}\u{62FE}", 50));
    v.push(("\u{56DB}\u{62FE}", 40));
    v.push(("\u{53C2}\u{62FE}", 30));
    v.push(("\u{5F10}\u{62FE}", 20));
    v.push(("\u{58F1}\u{62FE}", 10));
    v.push(("\u{4E5D}", 9));
    v.push(("\u{516B}", 8));
    v.push(("\u{4E03}", 7));
    v.push(("\u{516D}", 6));
    v.push(("\u{4F0D}", 5));
    v.push(("\u{56DB}", 4));
    v.push(("\u{53C2}", 3));
    v.push(("\u{5F10}", 2));
    v.push(("\u{58F1}", 1));
    v.push(("\u{96F6}", 0));
    proof {
        assert(additive_entries(v@) =~= japanese_formal_table());
    }
    v
}

/// Formal Japanese Kanji numbering.
pub struct JapaneseFormal;

impl<T: UnsignedInteger> NominalSystem<T> for JapaneseFormal {
    open spec fn spec_format(&self, n: nat) -> Result<Seq<char>, FormatFailure> {
        spec_additive_format(japanese_formal_table(), Some("\u{96F6}"@), n)
    }

    fn try_format_nominal(&self, nominal: T) -> (r: Result<NominalString, Error<T>>) {
        let symbols = japanese_formal_symbols();
        format_additive(&symbols, Some("\u{96F6}"), nominal)
    }
}

/// The symbol table behind [`JapaneseInformal`], in descending value order.
pub open spec fn japanese_informal_table() -> Seq<(Seq<char>, nat)> {
    seq![
        ("\u{4E5D}\u{5343}"@, 9000 as nat),
        ("\u{516B}\u{5343}"@, 8000 as nat),
        ("\u{4E03}\u{5343}"@, 7000 as nat),
        ("\u{516D}\u{5343}"@, 6000 as nat),
        ("\u{4E94}\u{5343}"@, 5000 as nat),
        ("\u{56DB}\u{5343}"@, 4000 as nat),
        ("\u{4E09}\u{5343}"@, 3000 as nat),
        ("\u{4E8C}\u{5343}"@, 2000 as nat),
        ("\u{5343}"@, 1000 as nat),
        ("\u{4E5D}\u{767E}"@, 900 as nat),
        ("\u{516B}\u{767E}"@, 800 as nat),
        ("\u{4E03}\u{767E}"@, 700 as nat),
        ("\u{516D}\u{767E}"@, 600 as nat),
        ("\u{4E94}\u{767E}"@, 500 as nat),
        ("\u{56DB}\u{767E}"@, 400 as nat),
        ("\u{4E09}\u{767E}"@, 300 as nat),
        ("\u{4E8C}\u{767E}"@, 200 as nat),
        ("\u{767E}"@, 100 as nat),
        ("\u{4E5D}\u{5341}"@, 90 as nat),
        ("\u{516B}\u{5341}"@, 80 as nat),
        ("\u{4E03}\u{5341}"@, 70 as nat),
        ("\u{516D}\u{5341}"@, 60 as nat),
        ("\u{4E94}\u{5341}"@, 50 as nat),
        ("\u{56DB}\u{5341}"@, 40 as nat),
        ("\u{4E09}\u{5341}"@, 30 as nat),
        ("\u{4E8C}\u{5341}"@, 20 as nat),
        ("\u{5341}"@, 10 as nat),
        ("\u{4E5D}"@, 9 as nat),
        ("\u{516B}"@, 8 as nat),
        ("\u{4E03}"@, 7 as nat),
        ("\u{516D}"@, 6 as nat),
        ("\u{4E94}"@, 5 as nat),
        ("\u{56DB}"@, 4 as nat),
        ("\u{4E09}"@, 3 as nat),
        ("\u{4E8C}"@, 2 as nat),
        ("\u{4E00}"@, 1 as nat),
        ("\u{3007}"@, 0 as nat),
    ]
}

/// Returns the symbol table behind [`JapaneseInformal`] as a concrete vector.
#[verifier::rlimit(100)]
fn japanese_informal_symbols() -> (r: Vec<(&'static str, u128)>)
    ensures
        additive_entries(r@) == japanese_informal_table(),
{
    let mut v: Vec<(&'static str, u128)> = Vec::new();
    v.push(("\u{4E5D}\u{5343}", 9000));
    v.push(("\u{516B}\u{5343}", 8000));
    v.push(("\u{4E03}\u{5343}", 7000));
    v.push(("\u{516D}\u{5343}", 6000));
    v.push(("\u{4E94}\u{5343}", 5000));
    v.push(("\u{56DB}\u{5343}", 4000));
    v.push(("\u{4E09}\u{5343}", 3000));
    v.push(("\u{4E8C}\u{5343}", 2000));
    v.push(("\u{5343}", 1000));
    v.push(("\u{4E5D}\u{767E}", 900));
    v.push(("\u{516B}\u{767E}", 800));
    v.push(("\u{4E03}\u{767E}", 700));
    v.push(("\u{516D}\u{767E}", 600));
    v.push(("\u{4E94}\u{767E}", 500));
    v.push(("\u{56DB}\u{767E}", 400));
    v.push(("\u{4E09}\u{767E}", 300));
    v.push(("\u{4E8C}\u{767E}", 200));
    v.push(("\u{767E}", 100));
    v.push(("\u{4E5D}\u{5341}", 90));
    v.push(("\u{516B}\u{5341}", 80));
    v.push(("\u{4E03}\u{5341}", 70));
    v.push(("\u{516D}\u{5341}", 60));
    v.push(("\u{4E94}\u{5341}", 50));
    v.push(("\u{56DB}\u{5341}", 40));
    v.push(("\u{4E09}\u{5341}", 30));
    v.push(("\u{4E8C}\u{5341}", 20));
    v.push(("\u{5341}", 10));
    v.push(("\u{4E5D}", 9));
    v.push(("\u{516B}", 8));
    v.push(("\u{4E03}", 7));
    v.push(("\u{516D}", 6));
    v.push(("\u{4E94}", 5));
    v.push(("\u{56DB}", 4));
    v.push(("\u{4E09}", 3));
    v.push(("\u{4E8C}", 2));
    v.push(("\u{4E00}", 1));
    v.push(("\u{3007}", 0));
    proof {
        assert(additive_entries(v@) =~= japanese_informal_table());
    }
    v
}

/// Informal Japanese Kanji numbering.
pub struct JapaneseInformal;

impl<T: UnsignedInteger> NominalSystem<T> for JapaneseInformal {
    open spec fn spec_format(&self, n: nat) -> Result<Seq<char>, FormatFailure> {
        spec_additive_format(japanese_informal_table(), Some("\u{3007}"@), n)
    }

    fn try_format_nominal(&self, nominal: T) -> (r: Result<NominalString, Error<T>>) {
        let symbols = japanese_informal_symbols();
        format_additive(&symbols, Some("\u{3007}"), nominal)
    }
}

/// The symbol table behind [`HangeulFormal`], in descending value order.
pub open spec fn hangeul_formal_table() -> Seq<(Seq<char>, nat)> {
    seq![
        ("\u{AD6C}\u{CC9C}"@, 9000 as nat),
        ("\u{D314}\u{CC9C}"@, 8000 as nat),
        ("\u{CE60}\u{CC9C}"@, 7000 as nat),
        ("\u{C721}\u{CC9C}"@, 6000 as nat),
        ("\u{C624}\u{CC9C}"@, 5000 as nat),
        ("\u{C0AC}\u{CC9C}"@, 4000 as nat),
        ("\u{C0BC}\u{CC9C}"@, 3000 as nat),
        ("\u{C774}\u{CC9C}"@, 2000 as nat),
        ("\u{C77C}\u{CC9C}"@, 1000 as nat),
        ("\u{AD6C}\u{BC31}"@, 900 as nat),
        ("\u{D314}\u{BC31}"@, 800 as nat),
        ("\u{CE60}\u{BC31}"@, 700 as nat),
        ("\u{C721}\u{BC31}"@, 600 as nat),
        ("\u{C624}\u{BC31}"@, 500 as nat),
        ("\u{C0AC}\u{BC31}"@, 400 as nat),
        ("\u{C0BC}\u{BC31}"@, 300 as nat),
        ("\u{C774}\u{BC31}"@, 200 as nat),
        ("\u{C77C}\u{BC31}"@, 100 as nat),
        ("\u{AD6C}\u{C2ED}"@, 90 as nat),
        ("\u{D314}\u{C2ED}"@, 80 as nat),
        ("\u{CE60}\u{C2ED}"@, 70 as nat),
        ("\u{C721}\u{C2ED}"@, 60 as nat),
        ("\u{C624}\u{C2ED}"@, 50 as nat),
        ("\u{C0AC}\u{C2ED}"@, 40 as nat),
        ("\u{C0BC}\u{C2ED}"@, 30 as nat),
        ("\u{C774}\u{C2ED}"@, 20 as nat),
        ("\u{C77C}\u{C2ED}"@, 10 as nat),
        ("\u{AD6C}"@, 9 as nat),
        ("\u{D314}"@, 8 as nat),
        ("\u{CE60}"@, 7 as nat),
        ("\u{C721}"@, 6 as nat),
        ("\u{C624}"@, 5 as nat),
        ("\u{C0AC}"@, 4 as nat),
        ("\u{C0BC}"@, 3 as nat),
        ("\u{C774}"@, 2 as nat),
        ("\u{C77C}"@, 1 as nat),
        ("\u{C601}"@, 0 as nat),
    ]
}

/// Returns the symbol table behind [`HangeulFormal`] as a concrete vector.
#[verifier::rlimit(100)]
fn hangeul_formal_symbols() -> (r: Vec<(&'static str, u128)>)
    ensures
        additive_entries(r@) == hangeul_formal_table(),
{
    let mut v: Vec<(&'static str, u128)> = Vec::new();
    v.push(("\u{AD6C}\u{CC9C}", 9000));
    v.push(("\u{D314}\u{CC9C}", 8000));
    v.push(("\u{CE60}\u{CC9C}", 7000));
    v.push(("\u{C721}\u{CC9C}", 6000));
    v.push(("\u{C624}\u{CC9C}", 5000));
    v.push(("\u{C0AC}\u{CC9C}", 4000));
    v.push(("\u{C0BC}\u{CC9C}", 3000));
    v.push(("\u{C774}\u{CC9C}", 2000));
    v.push(("\u{C77C}\u{CC9C}", 1000));
    v.push(("\u{AD6C}\u{BC31}", 900));
    v.push(("\u{D314}\u{BC31}", 800));
    v.push(("\u{CE60}\u{BC31}", 700));
    v.push(("\u{C721}\u{BC31}", 600));
    v.push(("\u{C624}\u{BC31}", 500));
    v.push(("\u{C0AC}\u{BC31}", 400));
    v.push(("\u{C0BC}\u{BC31}", 300));
    v.push(("\u{C774}\u{BC31}", 200));
    v.push(("\u{C77C}\u{BC31}", 100));
    v.push(("\u{AD6C}\u{C2ED}", 90));
    v.push(("\u{D314}\u{C2ED}", 80));
    v.push(("\u{CE60}\u{C2ED}", 70));
    v.push(("\u{C721}\u{C2ED}", 60));
    v.push(("\u{C624}\u{C2ED}", 50));
    v.push(("\u{C0AC}\u{C2ED}", 40));
    v.push(("\u{C0BC}\u{C2ED}", 30));
    v.push(("\u{C774}\u{C2ED}", 20));
    v.push(("\u{C77C}\u{C2ED}", 10));
    v.push(("\u{AD6C}", 9));
    v.push(("\u{D314}", 8));
    v.push(("\u{CE60}", 7));
    v.push(("\u{C721}", 6));
    v.push(("\u{C624}", 5));
    v.push(("\u{C0AC}", 4));
    v.push(("\u{C0BC}", 3));
    v.push(("\u{C774}", 2));
    v.push(("\u{C77C}", 1));
    v.push(("\u{C601}", 0));
    proof {
        assert(additive_entries(v@) =~= hangeul_formal_table());
    }
    v
}

/// Korean Hangeul numbering.
pub struct HangeulFormal;

impl<T: UnsignedInteger> NominalSystem<T> for HangeulFormal {
    open spec fn spec_format(&self, n: nat) -> Result<Seq<char>, FormatFailure> {
        spec_additive_format(hangeul_formal_table(), Some("\u{C601}"@), n)
    }

    fn try_format_nominal(&self, nominal: T) -> (r: Result<NominalString, Error<T>>) {
        let symbols = hangeul_formal_symbols();
        format_additive(&symbols, Some("\u{C601}"), nominal)
    }
}

/// The symbol table behind [`HangeulInformal`], in descending value order.
pub open spec fn hangeul_informal_table() -> Seq<(Seq<char>, nat)> {
    seq![
        ("\u{4E5D}\u{5343}"@, 9000 as nat),
        ("\u{516B}\u{5343}"@, 8000 as nat),
        ("\u{4E03}\u{5343}"@, 7000 as nat),
        ("\u{516D}\u{5343}"@, 6000 as nat),
        ("\u{4E94}\u{5343}"@, 5000 as nat),
        ("\u{56DB}\u{5343}"@, 4000 as nat),
        ("\u{4E09}\u{5343}"@, 3000 as nat),
        ("\u{4E8C}\u{5343}"@, 2000 as nat),
        ("\u{5343}"@, 1000 as nat),
        ("\u{4E5D}\u{767E}"@, 900 as nat),
        ("\u{516B}\u{767E}"@, 800 as nat),
        ("\u{4E03}\u{767E}"@, 700 as nat),
        ("\u{516D}\u{767E}"@, 600 as nat),
        ("\u{4E94}\u{767E}"@, 500 as nat),
        ("\u{56DB}\u{767E}"@, 400 as nat),
        ("\u{4E09}\u{767E}"@, 300 as nat),
        ("\u{4E8C}\u{767E}"@, 200 as nat),
        ("\u{767E}"@, 100 as nat),
        ("\u{4E5D}\u{5341}"@, 90 as nat),
        ("\u{516B}\u{5341}"@, 80 as nat),
        ("\u{4E03}\u{5341}"@, 70 as nat),
        ("\u{516D}\u{5341}"@, 60 as nat),
        ("\u{4E94}\u{5341}"@, 50 as nat),
        ("\u{56DB}\u{5341}"@, 40 as nat),
        ("\u{4E09}\u{5341}"@, 30 as nat),
        ("\u{4E8C}\u{5341}"@, 20 as nat),
        ("\u{5341}"@, 10 as nat),
        ("\u{4E5D}"@, 9 as nat),
        ("\u{516B}"@, 8 as nat),
        ("\u{4E03}"@, 7 as nat),
        ("\u{516D}"@, 6 as nat),
        ("\u{4E94}"@, 5 as nat),
        ("\u{56DB}"@, 4 as nat),
        ("\u{4E09}"@, 3 as nat),
        ("\u{4E8C}"@, 2 as nat),
        ("\u{4E00}"@, 1 as nat),
        ("\u{96F6}"@, 0 as nat),
    ]
}

/// Returns the symbol table behind [`HangeulInformal`] as a concrete vector.
#[verifier::rlimit(100)]
fn hangeul_informal_symbols() -> (r: Vec<(&'static str, u128)>)
    ensures
        additive_entries(r@) == hangeul_informal_table(),
{
    let mut v: Vec<(&'static str, u128)> = Vec::new();
    v.push(("\u{4E5D}\u{5343}", 9000));
    v.push(("\u{516B}\u{5343}", 8000));
    v.push(("\u{4E03}\u{5343}", 7000));
    v.push(("\u{516D}\u{5343}", 6000));
    v.push(("\u{4E94}\u{5343}", 5000));
    v.push(("\u{56DB}\u{5343}", 4000));
    v.push(("\u{4E09}\u{5343}", 3000));
    v.push(("\u{4E8C}\u{5343}", 2000));
    v.push(("\u{5343}", 1000));
    v.push(("\u{4E5D}\u{767E}", 900));
    v.push(("\u{516B}\u{767E}", 800));
    v.push(("\u{4E03}\u{767E}", 700));
    v.push(("\u{516D}\u{767E}", 600));
    v.push(("\u{4E94}\u{767E}", 500));
    v.push(("\u{56DB}\u{767E}", 400));
    v.push(("\u{4E09}\u{767E}", 300));
    v.push(("\u{4E8C}\u{767E}", 200));
    v.push(("\u{767E}", 100));
    v.push(("\u{4E5D}\u{5341}", 90));
    v.push(("\u{516B}\u{5341}", 80));
    v.push(("\u{4E03}\u{5341}", 70));
    v.push(("\u{516D}\u{5341}", 60));
    v.push(("\u{4E94}\u{5341}", 50));
    v.push(("\u{56DB}\u{5341}", 40));
    v.push(("\u{4E09}\u{5341}", 30));
    v.push(("\u{4E8C}\u{5341}", 20));
    v.push(("\u{5341}", 10));
    v.push(("\u{4E5D}", 9));
    v.push(("\u{516B}", 8));
    v.push(("\u{4E03}", 7));
    v.push(("\u{516D}", 6));
    v.push(("\u{4E94}", 5));
    v.push(("\u{56DB}", 4));
    v.push(("\u{4E09}", 3));
    v.push(("\u{4E8C}", 2));
    v.push(("\u{4E00}", 1));
    v.push(("\u{96F6}", 0));
    proof {
        assert(additive_entries(v@) =~= hangeul_informal_table());
    }
    v
}

/// Informal Korean Hangeul numbering.
pub struct HangeulInformal;

impl<T: UnsignedInteger> NominalSystem<T> for HangeulInformal {
    open spec fn spec_format(&self, n: nat) -> Result<Seq<char>, FormatFailure> {
        spec_additive_format(hangeul_informal_table(), Some("\u{96F6}"@), n)
    }

    fn try_format_nominal(&self, nominal: T) -> (r: Result<NominalString, Error<T>>) {
        let symbols = hangeul_informal_symbols();
        format_additive(&symbols, Some("\u{96F6}"), nominal)
    }
}

/// The symbol table behind [`HanjaFormal`], in descending value order.
pub open spec fn hanja_formal_table() -> Seq<(Seq<char>, nat)> {
    seq![
        ("\u{4E5D}\u{4EDF}"@, 9000 as nat),
        ("\u{516B}\u{4EDF}"@, 8000 as nat),
        ("\u{4E03}\u{4EDF}"@, 7000 as nat),
        ("\u{516D}\u{4EDF}"@, 6000 as nat),
        ("\u{4E94}\u{4EDF}"@, 5000 as nat),
        ("\u{56DB}\u{4EDF}"@, 4000 as nat),
        ("\u{53C3}\u{4EDF}"@, 3000 as nat),
        ("\u{8CB3}\u{4EDF}"@, 2000 as nat),
        ("\u{58F9}\u{4EDF}"@, 1000 as nat),
        ("\u{4E5D}\u{767E}"@, 900 as nat),
        ("\u{516B}\u{767E}"@, 800 as nat),
        ("\u{4E03}\u{767E}"@, 700 as nat),
        ("\u{516D}\u{767E}"@, 600 as nat),
        ("\u{4E94}\u{767E}"@, 500 as nat),
        ("\u{56DB}\u{767E}"@, 400 as nat),
        ("\u{53C3}\u{767E}"@, 300 as nat),
        ("\u{8CB3}\u{767E}"@, 200 as nat),
        ("\u{58F9}\u{767E}"@, 100 as nat),
        ("\u{4E5D}\u{62FE}"@, 90 as nat),
        ("\u{516B}\u{62FE}"@, 80 as nat),
        ("\u{4E03}\u{62FE}"@, 70 as nat),
        ("\u{516D}\u{62FE}"@, 60 as nat),
        ("\u{4E94}\u{62FE}"@, 50 as nat),
        ("\u{56DB}\u{62FE}"@, 40 as nat),
        ("\u{53C3}\u{62FE}"@, 30 as nat),
        ("\u{8CB3}\u{62FE}"@, 20 as nat),
        ("\u{58F9}\u{62FE}"@, 10 as nat),
        ("\u{4E5D}"@, 9 as nat),
        ("\u{516B}"@, 8 as nat),
        ("\u{4E03}"@, 7 as nat),
        ("\u{516D}"@, 6 as nat),
        ("\u{4E94}"@, 5 as nat),
        ("\u{56DB}"@, 4 as nat),
        ("\u{53C3}"@, 3 as nat),
        ("\u{8CB3}"@, 2 as nat),
        ("\u{58F9}"@, 1 as nat),
        ("\u{96F6}"@, 0 as nat),
    ]
}

/// Returns the symbol table behind [`HanjaFormal`] as a concrete vector.
#[verifier::rlimit(100)]
fn hanja_formal_symbols() -> (r: Vec<(&'static str, u128)>)
    ensures
        additive_entries(r@) == hanja_formal_table(),
{
    let mut v: Vec<(&'static str, u128)> = Vec::new();
    v.push(("\u{4E5D}\u{4EDF}", 9000));
    v.push(("\u{516B}\u{4EDF}", 8000));
    v.push(("\u{4E03}\u{4EDF}", 7000));
    v.push(("\u{516D}\u{4EDF}", 6000));
    v.push(("\u{4E94}\u{4EDF}", 5000));
    v.push(("\u{56DB}\u{4EDF}", 4000));
    v.push(("\u{53C3}\u{4EDF}", 3000));
    v.push(("\u{8CB3}\u{4EDF}", 2000));
    v.push(("\u{58F9}\u{4EDF}", 1000));
    v.push(("\u{4E5D}\u{767E}", 900));
    v.push(("\u{516B}\u{767E}", 800));
    v.push(("\u{4E03}\u{767E}", 700));
    v.push(("\u{516D}\u{767E}", 600));
    v.push(("\u{4E94}\u{767E}", 500));
    v.push(("\u{56DB}\u{767E}", 400));
    v.push(("\u{53C3}\u{767E}", 300));
    v.push(("\u{8CB3}\u{767E}", 200));
    v.push(("\u{58F9}\u{767E}", 100));
    v.push(("\u{4E5D}\u{62FE}", 90));
    v.push(("\u{516B}\u{62FE}", 80));
    v.push(("\u{4E03}\u{62FE}", 70));
    v.push(("\u{516D}\u{62FE}", 60));
    v.push(("\u{4E94}\u{62FE}", 50));
    v.push(("\u{56DB}\u{62FE}", 40));
    v.push(("\u{53C3}\u{62FE}", 30));
    v.push(("\u{8CB3}\u{62FE}", 20));
    v.push(("\u{58F9}\u{62FE}", 10));
    v.push(("\u{4E5D}", 9));
    v.push(("\u{516B}", 8));
    v.push(("\u{4E03}", 7));
    v.push(("\u{516D}", 6));
    v.push(("\u{4E94}", 5));
    v.push(("\u{56DB}", 4));
    v.push(("\u{53C3}", 3));
    v.push(("\u{8CB3}", 2));
    v.push(("\u{58F9}", 1));
    v.push(("\u{96F6}", 0));
    proof {
        assert(additive_entries(v@) =~= hanja_formal_table());
    }
    v
}

/// Formal Korean Hanja numbering.
pub struct HanjaFormal;

impl<T: UnsignedInteger> NominalSystem<T> for HanjaFormal {
    open spec fn spec_format(&self, n: nat) -> Result<Seq<char>, FormatFailure> {
        spec_additive_format(hanja_formal_table(), Some("\u{96F6}"@), n)
    }

    fn try_format_nominal(&self, nominal: T) -> (r: Result<NominalString, Error<T>>) {
        let symbols = hanja_formal_symbols();
        format_additive(&symbols, Some("\u{96F6}"), nominal)
    }
}

/// A table with a designated zero symbol assigns exactly that symbol to the
/// value 0; a table without one assigns 0 the missing-zero-symbol failure.
pub proof fn lemma_additive_zero_handling(set: &AdditiveSet)
    ensures
        <AdditiveSet as NominalSystem<u32>>::spec_format(set, 0) == (match set.spec_zero() {
            Some(z) => Ok::<Seq<char>, FormatFailure>(z),
            None => Err::<Seq<char>, FormatFailure>(FormatFailure::NoZeroSymbol),
        }),
{
}

} // verus!
