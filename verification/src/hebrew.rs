//! Hebrew numerals: greedy subtraction against the 22-letter value table,
//! with the idiomatic replacements for 15 and 16 (avoiding letter pairs that
//! would spell a sacred name) and the quote-mark decoration: single-letter
//! results are wrapped in geresh and gershayim, longer results receive one
//! gershayim before their final letter.

use crate::nominalstring::NominalString;
use crate::{Error, FormatFailure, NominalSystem, UnsignedInteger};
use vstd::prelude::*;

verus! {

/// The 22 Hebrew letters with their numeric values, in descending order.
pub open spec fn hebrew_letters() -> Seq<(char, nat)> {
    seq![
        ('\u{5EA}', 400 as nat),
        ('\u{5E9}', 300 as nat),
        ('\u{5E8}', 200 as nat),
        ('\u{5E7}', 100 as nat),
        ('\u{5E6}', 90 as nat),
        ('\u{5E4}', 80 as nat),
        ('\u{5E2}', 70 as nat),
        ('\u{5E1}', 60 as nat),
        ('\u{5E0}', 50 as nat),
        ('\u{5DE}', 40 as nat),
        ('\u{5DC}', 30 as nat),
        ('\u{5DB}', 20 as nat),
        ('\u{5D9}', 10 as nat),
        ('\u{5D8}', 9 as nat),
        ('\u{5D7}', 8 as nat),
        ('\u{5D6}', 7 as nat),
        ('\u{5D5}', 6 as nat),
        ('\u{5D4}', 5 as nat),
        ('\u{5D3}', 4 as nat),
        ('\u{5D2}', 3 as nat),
        ('\u{5D1}', 2 as nat),
        ('\u{5D0}', 1 as nat),
    ]
}

/// The mathematical view of the letter table: each entry is the letter with
/// its value.
pub open spec fn hebrew_entries(letters: Seq<(char, u32)>) -> Seq<(char, nat)> {
    letters.map_values(|e: (char, u32)| (e.0, e.1 as nat))
}

/// The characters Hebrew numbering emits for `rem`, scanning the letter
/// table from entry `i` onward; `empty` tells whether nothing has been
/// emitted yet.
///
/// Values 15 and 16 are replaced wholesale by fixed idiomatic letter pairs.
/// A value rendered by one single letter is wrapped in geresh and gershayim
/// marks to distinguish it from a word; a rendering of two or more letters
/// instead receives one gershayim mark immediately before its final letter.
pub open spec fn hebrew_symbols_from(i: int, rem: nat, empty: bool) -> Seq<char>
    decreases hebrew_letters().len() - i, rem,
{
    let t = hebrew_letters();
    if i < 0 || i >= t.len() {
        seq![]
    } else if t[i].1 == 0 {
        seq![]
    } else if rem >= t[i].1 {
        if rem == 15 {
            "\u{5D8}\u{5F4}\u{5D5}"@
        } else if rem == 16 {
            "\u{5D8}\u{5F4}\u{5D6}"@
        } else if rem == t[i].1 && empty {
            seq!['\u{5F3}', t[i].0, '\u{5F4}']
        } else if rem == t[i].1 {
            seq!['\u{5F4}', t[i].0]
        } else {
            seq![t[i].0] + hebrew_symbols_from(i, (rem - t[i].1) as nat, false)
        }
    } else {
        hebrew_symbols_from(i + 1, rem, empty)
    }
}

/// Returns the letter table as a concrete vector.
#[verifier::rlimit(100)]
fn hebrew_letters_vec() -> (r: Vec<(char, u32)>)
    ensures
        hebrew_entries(r@) == hebrew_letters(),
{
    let mut v: Vec<(char, u32)> = Vec::new();
    v.push(('\u{5EA}', 400));
    v.push(('\u{5E9}', 300));
    v.push(('\u{5E8}', 200));
    v.push(('\u{5E7}', 100));
    v.push(('\u{5E6}', 90));
    v.push(('\u{5E4}', 80));
    v.push(('\u{5E2}', 70));
    v.push(('\u{5E1}', 60));
    v.push(('\u{5E0}', 50));
    v.push(('\u{5DE}', 40));
    v.push(('\u{5DC}', 30));
    v.push(('\u{5DB}', 20));
    v.push(('\u{5D9}', 10));
    v.push(('\u{5D8}', 9));
    v.push(('\u{5D7}', 8));
    v.push(('\u{5D6}', 7));
    v.push(('\u{5D5}', 6));
    v.push(('\u{5D4}', 5));
    v.push(('\u{5D3}', 4));
    v.push(('\u{5D2}', 3));
    v.push(('\u{5D1}', 2));
    v.push(('\u{5D0}', 1));
    proof {
        assert(hebrew_entries(v@) =~= hebrew_letters());
    }
    v
}

/// Hebrew numerals.
pub struct Hebrew;

impl<T: UnsignedInteger> NominalSystem<T> for Hebrew {
    open spec fn spec_format(&self, n: nat) -> Result<Seq<char>, FormatFailure> {
        if n == 0 {
            Err(FormatFailure::NoZeroSymbol)
        } else {
            Ok(hebrew_symbols_from(0, n, true))
        }
    }

    fn try_format_nominal(&self, nominal: T) -> (r: Result<NominalString, Error<T>>) {
        let n = nominal.widen();
        if n == 0 {
            return Err(Error::NoZeroSymbol);
        }
        let letters = hebrew_letters_vec();
        let ghost target = hebrew_symbols_from(0, n as nat, true);
        let mut formatted = NominalString::new();
        let mut remaining = n;
        let mut i: usize = 0;
        let mut done = false;
        proof {
            assert(Seq::<char>::empty() + target =~= target);
        }
        while i < letters.len() && !done
            invariant
                n as nat == nominal.as_nat(),
                n > 0,
                target == hebrew_symbols_from(0, n as nat, true),
                hebrew_entries(letters@) == hebrew_letters(),
                0 <= i <= letters@.len(),
                target == formatted@ + (if done {
                    Seq::<char>::empty()
                } else {
                    hebrew_symbols_from(i as int, remaining as nat, formatted@.len() == 0)
                }),
            decreases letters@.len() - i + (if done { 0int } else { 1int }),
        {
            let entry = letters[i];
            let symbol = entry.0;
            let value = entry.1;
            proof {
                assert(hebrew_letters()[i as int] == (symbol, value as nat));
            }
            if value == 0 {
                done = true;
            } else {
                while remaining >= value as u128
                    invariant
                        n as nat == nominal.as_nat(),
                        n > 0,
                        target == hebrew_symbols_from(0, n as nat, true),
                        hebrew_entries(letters@) == hebrew_letters(),
                        0 <= i < letters@.len(),
                        hebrew_letters()[i as int] == (symbol, value as nat),
                        value > 0,
                        target == formatted@ + hebrew_symbols_from(
                            i as int,
                            remaining as nat,
                            formatted@.len() == 0,
                        ),
                    decreases remaining,
                {
                    let ghost before = formatted@;
                    proof {
                        assert(hebrew_entries(letters@).len() == letters@.len());
                        assert(i < hebrew_letters().len());
                    }
                    if remaining == 15 {
                        proof {
                            assert(hebrew_symbols_from(
                                i as int,
                                remaining as nat,
                                before.len() == 0,
                            ) == "\u{5D8}\u{5F4}\u{5D5}"@);
                        }
                        let _ = formatted.try_push_str("\u{5D8}\u{5F4}\u{5D5}");
                        return Ok(formatted);
                    }
                    if remaining == 16 {
                        proof {
                            assert(hebrew_symbols_from(
                                i as int,
                                remaining as nat,
                                before.len() == 0,
                            ) == "\u{5D8}\u{5F4}\u{5D6}"@);
                        }
                        let _ = formatted.try_push_str("\u{5D8}\u{5F4}\u{5D6}");
                        return Ok(formatted);
                    }
                    let last_symbol = value as u128 == remaining;
                    if last_symbol && formatted.is_empty() {
                        let _ = formatted.try_push('\u{5F3}');
                        let _ = formatted.try_push(symbol);
                        let _ = formatted.try_push('\u{5F4}');
                        proof {
                            assert(before + seq!['\u{5F3}', symbol, '\u{5F4}']
                                =~= formatted@);
                        }
                        return Ok(formatted);
                    }
                    if last_symbol {
                        let _ = formatted.try_push('\u{5F4}');
                        let _ = formatted.try_push(symbol);
                        proof {
                            assert(before + seq!['\u{5F4}', symbol] =~= formatted@);
                        }
                        return Ok(formatted);
                    }
                    remaining = remaining - value as u128;
                    let _ = formatted.try_push(symbol);
                    proof {
                        assert(before + (seq![symbol] + hebrew_symbols_from(
                            i as int,
                            remaining as nat,
                            false,
                        )) =~= formatted@ + hebrew_symbols_from(
                            i as int,
                            remaining as nat,
                            false,
                        ));
                        assert(formatted@.len() > 0);
                    }
                }
                i = i + 1;
            }
        }
        Ok(formatted)
    }
}

} // verus!
