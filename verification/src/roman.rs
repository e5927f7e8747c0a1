//! Roman numerals built directly on a fixed table of numeral values,
//! including the vinculum (overline) notation for 4,000 and above.

use crate::additive::{additive_entries, format_additive, spec_additive_format};
use crate::nominalstring::NominalString;
use crate::{Error, FormatFailure, NominalSystem, UnsignedInteger};
use vstd::prelude::*;

verus! {

/// The mathematical view of a Roman digit table: each entry is the symbol's
/// characters together with its value.
pub open spec fn roman_entries(digits: Seq<(&'static str, u32)>) -> Seq<(Seq<char>, nat)> {
    digits.map_values(|e: (&'static str, u32)| (e.0@, e.1 as nat))
}

/// Formats `nominal` by greedy subtraction against the Roman digit table
/// `digits`, returning `zero_digit` for the value 0.
fn format_roman<T: UnsignedInteger>(
    zero_digit: &'static str,
    digits: &Vec<(&'static str, u32)>,
    nominal: T,
) -> (r: Result<NominalString, Error<T>>)
    ensures
        crate::format_result_matches(
            r,
            spec_additive_format(roman_entries(digits@), Some(zero_digit@), nominal.as_nat()),
            nominal,
        ),
{
    let mut v: Vec<(&'static str, u128)> = Vec::new();
    let mut i: usize = 0;
    proof {
        assert(additive_entries(v@) =~= roman_entries(digits@.take(0)));
    }
    while i < digits.len()
        invariant
            0 <= i <= digits@.len(),
            additive_entries(v@) == roman_entries(digits@.take(i as int)),
        decreases digits@.len() - i,
    {
        let entry = digits[i];
        let ghost prev = v@;
        v.push((entry.0, entry.1 as u128));
        proof {
            assert(additive_entries(v@) =~= additive_entries(prev).push(
                (entry.0@, entry.1 as nat),
            ));
            assert(roman_entries(digits@.take(i + 1)) =~= roman_entries(
                digits@.take(i as int),
            ).push((entry.0@, entry.1 as nat)));
        }
        i = i + 1;
    }
    proof {
        assert(digits@.take(digits@.len() as int) =~= digits@);
    }
    format_additive(&v, Some(zero_digit), nominal)
}

/// The numeral table behind [`RomanLower`], in descending value order.
pub open spec fn roman_lower_table() -> Seq<(Seq<char>, nat)> {
    seq![
        ("\u{6D}\u{305}"@, 1000000 as nat),
        ("\u{64}\u{305}\u{6D}\u{305}"@, 900000 as nat),
        ("\u{64}\u{305}"@, 500000 as nat),
        ("\u{63}\u{305}\u{64}\u{305}"@, 400000 as nat),
        ("\u{63}\u{305}"@, 100000 as nat),
        ("\u{6C}\u{305}\u{63}\u{305}"@, 90000 as nat),
        ("\u{6C}\u{305}"@, 50000 as nat),
        ("\u{78}\u{305}\u{6C}\u{305}"@, 40000 as nat),
        ("\u{78}\u{305}"@, 10000 as nat),
        ("\u{69}\u{305}\u{78}\u{305}"@, 9000 as nat),
        ("\u{76}\u{305}"@, 5000 as nat),
        ("\u{69}\u{305}\u{76}\u{305}"@, 4000 as nat),
        ("\u{6D}"@, 1000 as nat),
        ("\u{63}\u{6D}"@, 900 as nat),
        ("\u{64}"@, 500 as nat),
        ("\u{63}\u{64}"@, 400 as nat),
        ("\u{63}"@, 100 as nat),
        ("\u{78}\u{63}"@, 90 as nat),
        ("\u{6C}"@, 50 as nat),
        ("\u{78}\u{6C}"@, 40 as nat),
        ("\u{78}"@, 10 as nat),
        ("\u{69}\u{78}"@, 9 as nat),
        ("\u{76}"@, 5 as nat),
        ("\u{69}\u{76}"@, 4 as nat),
        ("\u{69}"@, 1 as nat),
    ]
}

/// Returns the numeral table behind [`RomanLower`] as a concrete vector.
#[verifier::rlimit(100)]
fn roman_lower_digits() -> (r: Vec<(&'static str, u32)>)
    ensures
        roman_entries(r@) == roman_lower_table(),
{
    let mut v: Vec<(&'static str, u32)> = Vec::new();
    v.push(("\u{6D}\u{305}", 1000000));
    v.push(("\u{64}\u{305}\u{6D}\u{305}", 900000));
    v.push(("\u{64}\u{305}", 500000));
    v.push(("\u{63}\u{305}\u{64}\u{305}", 400000));
    v.push(("\u{63}\u{305}", 100000));
    v.push(("\u{6C}\u{305}\u{63}\u{305}", 90000));
    v.push(("\u{6C}\u{305}", 50000));
    v.push(("\u{78}\u{305}\u{6C}\u{305}", 40000));
    v.push(("\u{78}\u{305}", 10000));
    v.push(("\u{69}\u{305}\u{78}\u{305}", 9000));
    v.push(("\u{76}\u{305}", 5000));
    v.push(("\u{69}\u{305}\u{76}\u{305}", 4000));
    v.push(("\u{6D}", 1000));
    v.push(("\u{63}\u{6D}", 900));
    v.push(("\u{64}", 500));
    v.push(("\u{63}\u{64}", 400));
    v.push(("\u{63}", 100));
    v.push(("\u{78}\u{63}", 90));
    v.push(("\u{6C}", 50));
    v.push(("\u{78}\u{6C}", 40));
    v.push(("\u{78}", 10));
    v.push(("\u{69}\u{78}", 9));
    v.push(("\u{76}", 5));
    v.push(("\u{69}\u{76}", 4));
    v.push(("\u{69}", 1));
    proof {
        assert(roman_entries(v@) =~= roman_lower_table());
    }
    v
}

/// Lowercase Roman numerals.
///
/// This encoding utilizes vinculum notation for numbers 4,000 and above:
/// an overline multiplies a symbol's value by 1,000.
pub struct RomanLower;

impl<T: UnsignedInteger> NominalSystem<T> for RomanLower {
    open spec fn spec_format(&self, n: nat) -> Result<Seq<char>, FormatFailure> {
        spec_additive_format(roman_lower_table(), Some("n"@), n)
    }

    fn try_format_nominal(&self, nominal: T) -> (r: Result<NominalString, Error<T>>) {
        let digits = roman_lower_digits();
        format_roman("n", &digits, nominal)
    }
}

/// The numeral table behind [`RomanUpper`], in descending value order.
pub open spec fn roman_upper_table() -> Seq<(Seq<char>, nat)> {
    seq![
        ("\u{4D}\u{305}"@, 1000000 as nat),
        ("\u{44}\u{305}\u{4D}\u{305}"@, 900000 as nat),
        ("\u{44}\u{305}"@, 500000 as nat),
        ("\u{43}\u{305}\u{44}\u{305}"@, 400000 as nat),
        ("\u{43}\u{305}"@, 100000 as nat),
        ("\u{4C}\u{305}\u{43}\u{305}"@, 90000 as nat),
        ("\u{4C}\u{305}"@, 50000 as nat),
        ("\u{58}\u{305}\u{4C}\u{305}"@, 40000 as nat),
        ("\u{58}\u{305}"@, 10000 as nat),
        ("\u{49}\u{305}\u{58}\u{305}"@, 9000 as nat),
        ("\u{56}\u{305}"@, 5000 as nat),
        ("\u{49}\u{305}\u{56}\u{305}"@, 4000 as nat),
        ("\u{4D}"@, 1000 as nat),
        ("\u{43}\u{4D}"@, 900 as nat),
        ("\u{44}"@, 500 as nat),
        ("\u{43}\u{44}"@, 400 as nat),
        ("\u{43}"@, 100 as nat),
        ("\u{58}\u{43}"@, 90 as nat),
        ("\u{4C}"@, 50 as nat),
        ("\u{58}\u{4C}"@, 40 as nat),
        ("\u{58}"@, 10 as nat),
        ("\u{49}\u{58}"@, 9 as nat),
        ("\u{56}"@, 5 as nat),
        ("\u{49}\u{56}"@, 4 as nat),
        ("\u{49}"@, 1 as nat),
    ]
}

/// Returns the numeral table behind [`RomanUpper`] as a concrete vector.
#[verifier::rlimit(100)]
fn roman_upper_digits() -> (r: Vec<(&'static str, u32)>)
    ensures
        roman_entries(r@) == roman_upper_table(),
{
    let mut v: Vec<(&'static str, u32)> = Vec::new();
    v.push(("\u{4D}\u{305}", 1000000));
    v.push(("\u{44}\u{305}\u{4D}\u{305}", 900000));
    v.push(("\u{44}\u{305}", 500000));
    v.push(("\u{43}\u{305}\u{44}\u{305}", 400000));
    v.push(("\u{43}\u{305}", 100000));
    v.push(("\u{4C}\u{305}\u{43}\u{305}", 90000));
    v.push(("\u{4C}\u{305}", 50000));
    v.push(("\u{58}\u{305}\u{4C}\u{305}", 40000));
    v.push(("\u{58}\u{305}", 10000));
    v.push(("\u{49}\u{305}\u{58}\u{305}", 9000));
    v.push(("\u{56}\u{305}", 5000));
    v.push(("\u{49}\u{305}\u{56}\u{305}", 4000));
    v.push(("\u{4D}", 1000));
    v.push(("\u{43}\u{4D}", 900));
    v.push(("\u{44}", 500));
    v.push(("\u{43}\u{44}", 400));
    v.push(("\u{43}", 100));
    v.push(("\u{58}\u{43}", 90));
    v.push(("\u{4C}", 50));
    v.push(("\u{58}\u{4C}", 40));
    v.push(("\u{58}", 10));
    v.push(("\u{49}\u{58}", 9));
    v.push(("\u{56}", 5));
    v.push(("\u{49}\u{56}", 4));
    v.push(("\u{49}", 1));
    proof {
        assert(roman_entries(v@) =~= roman_upper_table());
    }
    v
}

/// Uppercase Roman numerals.
///
/// This encoding utilizes vinculum notation for numbers 4,000 and above:
/// an overline multiplies a symbol's value by 1,000.
pub struct RomanUpper;

impl<T: UnsignedInteger> NominalSystem<T> for RomanUpper {
    open spec fn spec_format(&self, n: nat) -> Result<Seq<char>, FormatFailure> {
        spec_additive_format(roman_upper_table(), Some("N"@), n)
    }

    fn try_format_nominal(&self, nominal: T) -> (r: Result<NominalString, Error<T>>) {
        let digits = roman_upper_digits();
        format_roman("N", &digits, nominal)
    }
}

} // verus!
