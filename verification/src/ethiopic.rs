//! The Ethiopic numerical system: a positional algorithm over base-100
//! groups of two decimal digits, with scale markers between groups and
//! digit-omission rules for bare powers and empty groups.

use crate::nominalstring::NominalString;
use crate::{Error, FormatFailure, NominalSystem, OutOfMemoryError, UnsignedInteger};
use vstd::prelude::*;

verus! {

/// The Ethiopic digits for the ones place; index 0 is a placeholder that is
/// never emitted.
pub open spec fn ethiopic_ones() -> Seq<char> {
    seq![
        '\u{0}', '\u{1369}', '\u{136A}', '\u{136B}', '\u{136C}', '\u{136D}', '\u{136E}',
        '\u{136F}', '\u{1370}', '\u{1371}',
    ]
}

/// The Ethiopic digits for the tens place; index 0 is a placeholder that is
/// never emitted.
pub open spec fn ethiopic_tens() -> Seq<char> {
    seq![
        '\u{0}', '\u{1372}', '\u{1373}', '\u{1374}', '\u{1375}', '\u{1376}', '\u{1377}',
        '\u{1378}', '\u{1379}', '\u{137A}',
    ]
}

/// The characters Ethiopic numbering emits for `rem`, whose lowest base-100
/// group has index `gi`.
///
/// Every group of two decimal digits is rendered tens-then-ones and is
/// followed by a scale marker: the hundred marker for odd group indexes that
/// hold a nonzero group, and the ten-thousand marker for every even group
/// index past the first. A group is omitted entirely when it is zero, or
/// when it is a bare 1 in the tens-of-marker position.
pub open spec fn ethiopic_symbols(rem: nat, gi: nat) -> Seq<char>
    decreases rem,
    via ethiopic_symbols_decreases
{
    if rem == 0 {
        seq![]
    } else {
        let first = rem % 10;
        let r1 = rem / 10;
        let second = r1 % 10;
        let r2 = r1 / 10;
        let sep: Seq<char> = if gi > 0 {
            if gi % 2 == 0 {
                seq!['\u{137C}']
            } else if !(first == 0 && second == 0) {
                seq!['\u{137B}']
            } else {
                seq![]
            }
        } else {
            seq![]
        };
        let remove = (first == 0 && second == 0) || ((r2 == 0 || gi % 2 == 1) && gi > 0 && second
            == 0 && first == 1);
        let digits: Seq<char> = if remove {
            seq![]
        } else {
            (if second != 0 {
                seq![ethiopic_tens()[second as int]]
            } else {
                seq![]
            }) + (if first != 0 {
                seq![ethiopic_ones()[first as int]]
            } else {
                seq![]
            })
        };
        ethiopic_symbols(r2, gi + 1) + digits + sep
    }
}

#[via_fn]
proof fn ethiopic_symbols_decreases(rem: nat, gi: nat) {
    if rem > 0 {
        vstd::arithmetic::div_mod::lemma_div_decreases(rem as int, 10);
        vstd::arithmetic::div_mod::lemma_div_nonincreasing((rem / 10) as int, 10);
    }
}

/// Returns the Ethiopic ones digits as a concrete vector.
fn ethiopic_ones_vec() -> (r: Vec<char>)
    ensures
        r@ == ethiopic_ones(),
{
    let mut v: Vec<char> = Vec::new();
    v.push('\u{0}');
    v.push('\u{1369}');
    v.push('\u{136A}');
    v.push('\u{136B}');
    v.push('\u{136C}');
    v.push('\u{136D}');
    v.push('\u{136E}');
    v.push('\u{136F}');
    v.push('\u{1370}');
    v.push('\u{1371}');
    proof {
        assert(v@ =~= ethiopic_ones());
    }
    v
}

/// Returns the Ethiopic tens digits as a concrete vector.
fn ethiopic_tens_vec() -> (r: Vec<char>)
    ensures
        r@ == ethiopic_tens(),
{
    let mut v: Vec<char> = Vec::new();
    v.push('\u{0}');
    v.push('\u{1372}');
    v.push('\u{1373}');
    v.push('\u{1374}');
    v.push('\u{1375}');
    v.push('\u{1376}');
    v.push('\u{1377}');
    v.push('\u{1378}');
    v.push('\u{1379}');
    v.push('\u{137A}');
    proof {
        assert(v@ =~= ethiopic_tens());
    }
    v
}

/// Formats `nominal` in the Ethiopic numerical system.
fn format_ethiopic<T: UnsignedInteger>(nominal: T) -> (r: Result<NominalString, OutOfMemoryError>)
    ensures
        r matches Ok(ns) && ns@ == ethiopic_symbols(nominal.as_nat(), 0),
{
    let ones = ethiopic_ones_vec();
    let tens = ethiopic_tens_vec();
    let n = nominal.widen();
    let ghost target = ethiopic_symbols(n as nat, 0);
    let mut formatted = NominalString::new_reverse();
    let mut remaining = n;
    let mut odd = false;
    let mut not_first = false;
    let ghost gi: nat = 0;
    proof {
        assert(target + Seq::<char>::empty() =~= target);
    }
    while remaining != 0
        invariant
            ones@ == ethiopic_ones(),
            tens@ == ethiopic_tens(),
            odd == (gi % 2 == 1),
            not_first == (gi > 0),
            target == ethiopic_symbols(remaining as nat, gi) + formatted@,
        decreases remaining,
    {
        let ghost rem0 = remaining as nat;
        let first = (remaining % 10) as usize;
        remaining = remaining / 10;
        let second = (remaining % 10) as usize;
        remaining = remaining / 10;
        let ghost sep_seq = if gi > 0 {
            if gi % 2 == 0 {
                seq!['\u{137C}']
            } else if !(first == 0 && second == 0) {
                seq!['\u{137B}']
            } else {
                Seq::<char>::empty()
            }
        } else {
            Seq::<char>::empty()
        };
        let ghost before = formatted@;
        if not_first {
            if !odd {
                let _ = formatted.try_push_front('\u{137C}');
            } else if !(first == 0 && second == 0) {
                let _ = formatted.try_push_front('\u{137B}');
            }
        }
        proof {
            assert(formatted@ =~= sep_seq + before);
        }
        let remove = (first == 0 && second == 0) || ((remaining == 0 || odd) && not_first
            && second == 0 && first == 1);
        let ghost mid = formatted@;
        if !remove {
            if first != 0 {
                let _ = formatted.try_push_front(ones[first]);
            }
            if second != 0 {
                let _ = formatted.try_push_front(tens[second]);
            }
        }
        proof {
            let first_n = rem0 % 10;
            let r1 = rem0 / 10;
            let second_n = r1 % 10;
            let r2 = r1 / 10;
            assert(first == first_n && second == second_n && remaining as nat == r2);
            let digits_seq: Seq<char> = if remove {
                Seq::<char>::empty()
            } else {
                (if second != 0 {
                    seq![ethiopic_tens()[second as int]]
                } else {
                    Seq::<char>::empty()
                }) + (if first != 0 {
                    seq![ethiopic_ones()[first as int]]
                } else {
                    Seq::<char>::empty()
                })
            };
            assert(formatted@ =~= digits_seq + sep_seq + before);
            assert(ethiopic_symbols(rem0, gi) =~= ethiopic_symbols(r2, gi + 1) + digits_seq
                + sep_seq);
            assert(ethiopic_symbols(rem0, gi) + before =~= ethiopic_symbols(r2, gi + 1)
                + formatted@);
            vstd::arithmetic::div_mod::lemma_div_decreases(rem0 as int, 10);
            vstd::arithmetic::div_mod::lemma_div_nonincreasing(r1 as int, 10);
        }
        proof {
            gi = gi + 1;
        }
        odd = !odd;
        not_first = true;
    }
    Ok(formatted)
}

/// Ethiopic numerical system.
pub struct Ethiopic;

impl<T: UnsignedInteger> NominalSystem<T> for Ethiopic {
    open spec fn spec_format(&self, n: nat) -> Result<Seq<char>, FormatFailure> {
        if n == 0 {
            Err(FormatFailure::NoZeroSymbol)
        } else {
            Ok(ethiopic_symbols(n, 0))
        }
    }

    fn try_format_nominal(&self, nominal: T) -> (r: Result<NominalString, Error<T>>) {
        if nominal.is_zero() {
            return Err(Error::NoZeroSymbol);
        }
        match format_ethiopic(nominal) {
            Ok(s) => Ok(s),
            Err(_) => Err(Error::OutOfMemory(nominal)),
        }
    }
}

} // verus!
