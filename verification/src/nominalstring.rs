//! A string builder that keeps short nominals in a fixed-capacity inline
//! representation and promotes itself to heap storage once that capacity is
//! exceeded.
//!
//! The two representations are observably identical: every operation is
//! specified purely in terms of the character sequence, and the inline/heap
//! boundary is reported by [`NominalString::is_inline`] alone.

use vstd::prelude::*;

verus! {

/// The maximum number of UTF-8 bytes a [`NominalString`] holds before it
/// promotes itself to heap storage.
pub const INLINE_CAPACITY: usize = 62;

/// The number of bytes `c` occupies in UTF-8.
pub open spec fn char_len(c: char) -> nat {
    if (c as u32) < 0x80 {
        1
    } else if (c as u32) < 0x800 {
        2
    } else if (c as u32) < 0x10000 {
        3
    } else {
        4
    }
}

/// The number of bytes `s` occupies in UTF-8.
pub open spec fn byte_len(s: Seq<char>) -> nat
    decreases s.len(),
{
    if s.len() == 0 {
        0
    } else {
        byte_len(s.drop_last()) + char_len(s.last())
    }
}

pub proof fn lemma_byte_len_push(s: Seq<char>, c: char)
    ensures
        byte_len(s.push(c)) == byte_len(s) + char_len(c),
{
    assert(s.push(c).drop_last() =~= s);
}

pub proof fn lemma_byte_len_insert_front(s: Seq<char>, c: char)
    ensures
        byte_len(s.insert(0, c)) == char_len(c) + byte_len(s),
    decreases s.len(),
{
    if s.len() == 0 {
        assert(s.insert(0, c) =~= seq![c]);
        assert(seq![c].drop_last() =~= Seq::<char>::empty());
        assert(seq![c].last() == c);
        assert(byte_len(Seq::<char>::empty()) == 0);
        assert(byte_len(seq![c]) == char_len(c));
    } else {
        assert(s.insert(0, c).drop_last() =~= s.drop_last().insert(0, c));
        assert(s.insert(0, c).last() == s.last());
        lemma_byte_len_insert_front(s.drop_last(), c);
    }
}

proof fn lemma_byte_len_take_succ(s: Seq<char>, i: int)
    requires
        0 <= i < s.len(),
    ensures
        byte_len(s.take(i + 1)) == byte_len(s.take(i)) + char_len(s[i]),
{
    assert(s.take(i + 1).drop_last() =~= s.take(i));
    assert(s.take(i + 1).last() == s[i]);
}

proof fn lemma_byte_len_prefix(s: Seq<char>, i: int)
    requires
        0 <= i <= s.len(),
    ensures
        byte_len(s.take(i)) <= byte_len(s),
    decreases s.len() - i,
{
    if i == s.len() {
        assert(s.take(i) =~= s);
    } else {
        lemma_byte_len_take_succ(s, i);
        lemma_byte_len_prefix(s, i + 1);
    }
}

/// Returns the number of bytes `c` occupies in UTF-8.
fn char_utf8_len(c: char) -> (r: usize)
    ensures
        r == char_len(c),
{
    let u = c as u32;
    if u < 0x80 {
        1
    } else if u < 0x800 {
        2
    } else if u < 0x10000 {
        3
    } else {
        4
    }
}

/// Returns true if `chars` plus `extra` further bytes still fit within the
/// inline capacity.
fn fits_inline(chars: &Vec<char>, extra: usize) -> (r: bool)
    requires
        extra <= 4,
    ensures
        r <==> byte_len(chars@) + extra <= INLINE_CAPACITY,
{
    let mut acc: usize = 0;
    let mut i: usize = 0;
    while i < chars.len()
        invariant
            0 <= i <= chars@.len(),
            acc == byte_len(chars@.take(i as int)),
            acc <= INLINE_CAPACITY,
            extra <= 4,
        decreases chars@.len() - i,
    {
        let cl = char_utf8_len(chars[i]);
        proof {
            lemma_byte_len_take_succ(chars@, i as int);
        }
        acc = acc + cl;
        i = i + 1;
        if acc > INLINE_CAPACITY {
            proof {
                lemma_byte_len_prefix(chars@, i as int);
            }
            return false;
        }
    }
    proof {
        assert(chars@.take(chars@.len() as int) =~= chars@);
    }
    acc + extra <= INLINE_CAPACITY
}

/// No additional memory was able to be allocated.
#[derive(Debug, Clone, Copy, Eq, PartialEq)]
pub struct OutOfMemoryError;

/// A string that can contain most formatted nominals without a heap
/// allocation.
///
/// Up to [`INLINE_CAPACITY`] bytes of UTF-8 content count as inline; the
/// first operation that would exceed that capacity promotes the string to
/// heap storage. The logical content is independent of the representation.
#[derive(Debug)]
pub struct NominalString {
    chars: Vec<char>,
    inline: bool,
}

impl Clone for NominalString {
    /// Returns a string with the same content and the same representation.
    fn clone(&self) -> (r: Self)
        ensures
            r@ == self@,
            r.spec_is_inline() == self.spec_is_inline(),
    {
        proof {
            use_type_invariant(self);
        }
        let chars = self.chars.clone();
        proof {
            assert forall|i: int| 0 <= i < self.chars@.len() implies chars@[i]
                == self.chars@[i] by {
                assert(vstd::pervasive::cloned::<char>(self.chars[i], chars[i]));
            }
            assert(chars@ =~= self.chars@);
        }
        NominalString { chars, inline: self.inline }
    }
}

impl View for NominalString {
    type V = Seq<char>;

    closed spec fn view(&self) -> Seq<char> {
        self.chars@
    }
}

impl NominalString {
    #[verifier::type_invariant]
    spec fn wf(self) -> bool {
        self.inline ==> byte_len(self.chars@) <= INLINE_CAPACITY
    }

    /// Reports whether this string is currently stored inline.
    pub closed spec fn spec_is_inline(&self) -> bool {
        self.inline
    }

    /// Returns an empty string.
    #[must_use]
    pub fn new() -> (r: Self)
        ensures
            r@ == Seq::<char>::empty(),
            r.spec_is_inline(),
    {
        NominalString { chars: Vec::new(), inline: true }
    }

    /// Returns an empty string, optimized for
    /// [`try_push_front()`](Self::try_push_front) calls.
    ///
    /// The returned string has identical observable behavior to a string
    /// returned from [`NominalString::new()`]. A reverse-growing inline
    /// layout would make repeated front pushes cheap for algorithms that
    /// emit digits least-significant-first; since the layout is purely a
    /// performance choice, this constructor shares one layout with
    /// [`NominalString::new()`], with no observable difference.
    #[must_use]
    pub fn new_reverse() -> (r: Self)
        ensures
            r@ == Seq::<char>::empty(),
            r.spec_is_inline(),
    {
        NominalString { chars: Vec::new(), inline: true }
    }

    /// Returns true if this string is currently stored inline rather than on
    /// the heap.
    #[must_use]
    #[verifier::when_used_as_spec(spec_is_inline)]
    pub fn is_inline(&self) -> (r: bool)
        ensures
            r == self.spec_is_inline(),
    {
        self.inline
    }

    /// Returns true if this string contains no characters.
    #[must_use]
    pub fn is_empty(&self) -> (r: bool)
        ensures
            r <==> self@.len() == 0,
    {
        self.chars.len() == 0
    }

    /// Pushes `ch` to the end of the string.
    ///
    /// # Errors
    ///
    /// This implementation always has growable storage available, so the
    /// result is always `Ok`; the `Result` is kept so that constrained
    /// configurations could surface [`OutOfMemoryError`].
    pub fn try_push(&mut self, ch: char) -> (r: Result<(), OutOfMemoryError>)
        ensures
            r is Ok,
            final(self)@ == old(self)@.push(ch),
            final(self).spec_is_inline() <==> old(self).spec_is_inline() && byte_len(old(self)@)
                + char_len(ch) <= INLINE_CAPACITY,
    {
        proof {
            use_type_invariant(&*self);
        }
        let l = char_utf8_len(ch);
        let keep_inline = self.inline && fits_inline(&self.chars, l);
        let mut tmp = NominalString { chars: Vec::new(), inline: false };
        core::mem::swap(&mut tmp, self);
        let NominalString { mut chars, inline: _ } = tmp;
        chars.push(ch);
        proof {
            lemma_byte_len_push(old(self)@, ch);
        }
        *self = NominalString { chars, inline: keep_inline };
        Ok(())
    }

    /// Pushes `ch` to the start of the string.
    ///
    /// # Errors
    ///
    /// This implementation always has growable storage available, so the
    /// result is always `Ok`.
    pub fn try_push_front(&mut self, ch: char) -> (r: Result<(), OutOfMemoryError>)
        ensures
            r is Ok,
            final(self)@ == old(self)@.insert(0, ch),
            final(self).spec_is_inline() <==> old(self).spec_is_inline() && byte_len(old(self)@)
                + char_len(ch) <= INLINE_CAPACITY,
    {
        proof {
            use_type_invariant(&*self);
        }
        let l = char_utf8_len(ch);
        let keep_inline = self.inline && fits_inline(&self.chars, l);
        let mut tmp = NominalString { chars: Vec::new(), inline: false };
        core::mem::swap(&mut tmp, self);
        let NominalString { mut chars, inline: _ } = tmp;
        chars.insert(0, ch);
        proof {
            lemma_byte_len_insert_front(old(self)@, ch);
        }
        *self = NominalString { chars, inline: keep_inline };
        Ok(())
    }

    /// Pushes every character of `str` to the end of the string.
    ///
    /// # Errors
    ///
    /// This implementation always has growable storage available, so the
    /// result is always `Ok`.
    pub fn try_push_str(&mut self, str: &str) -> (r: Result<(), OutOfMemoryError>)
        ensures
            r is Ok,
            final(self)@ == old(self)@ + str@,
            final(self).spec_is_inline() <==> old(self).spec_is_inline() && byte_len(
                old(self)@ + str@,
            ) <= INLINE_CAPACITY,
    {
        proof {
            use_type_invariant(&*self);
            assert(old(self)@ + str@.take(0) =~= old(self)@);
        }
        let n = str.unicode_len();
        let mut i: usize = 0;
        while i < n
            invariant
                n == str@.len(),
                0 <= i <= n,
                self@ == old(self)@ + str@.take(i as int),
                self.spec_is_inline() <==> old(self).spec_is_inline() && byte_len(self@)
                    <= INLINE_CAPACITY,
            decreases n - i,
        {
            let c = str.get_char(i);
            let ghost prev = self@;
            let _ = self.try_push(c);
            proof {
                lemma_byte_len_push(prev, c);
                assert(prev.push(c) =~= old(self)@ + str@.take(i + 1));
            }
            i = i + 1;
        }
        proof {
            assert(str@.take(n as int) =~= str@);
        }
        Ok(())
    }

    /// Returns a string holding the single character `ch`.
    #[must_use]
    pub fn from_char(ch: char) -> (r: Self)
        ensures
            r@ == seq![ch],
            r.spec_is_inline(),
    {
        let mut r = Self::new();
        let _ = r.try_push(ch);
        proof {
            assert(Seq::<char>::empty().push(ch) =~= seq![ch]);
            assert(byte_len(Seq::<char>::empty()) == 0);
        }
        r
    }

    /// Returns a string holding the characters of `str`, stored inline when
    /// they fit within [`INLINE_CAPACITY`] bytes.
    #[must_use]
    pub fn from_str_slice(str: &str) -> (r: Self)
        ensures
            r@ == str@,
            r.spec_is_inline() <==> byte_len(str@) <= INLINE_CAPACITY,
    {
        let mut r = Self::new();
        let _ = r.try_push_str(str);
        proof {
            assert(Seq::<char>::empty() + str@ =~= str@);
        }
        r
    }

    /// Returns a string that takes over `string` as its heap storage.
    #[must_use]
    pub fn from_string(string: String) -> (r: Self)
        ensures
            r@ == string@,
            !r.spec_is_inline(),
    {
        let str = string.as_str();
        let n = str.unicode_len();
        let mut chars: Vec<char> = Vec::new();
        let mut i: usize = 0;
        while i < n
            invariant
                n == str@.len(),
                0 <= i <= n,
                chars@ == str@.take(i as int),
            decreases n - i,
        {
            let c = str.get_char(i);
            chars.push(c);
            proof {
                assert(str@.take(i as int).push(c) =~= str@.take(i + 1));
            }
            i = i + 1;
        }
        proof {
            assert(str@.take(n as int) =~= str@);
        }
        NominalString { chars, inline: false }
    }

    /// Returns the content as an owned, growable string.
    #[must_use]
    pub fn as_string(&self) -> (r: String)
        ensures
            r@ == self@,
    {
        let mut out = String::new();
        let mut i: usize = 0;
        while i < self.chars.len()
            invariant
                0 <= i <= self.chars@.len(),
                out@ == self.chars@.take(i as int),
            decreases self.chars@.len() - i,
        {
            let c = self.chars[i];
            string_push_char(&mut out, c);
            proof {
                assert(self.chars@.take(i as int).push(c) =~= self.chars@.take(i + 1));
            }
            i = i + 1;
        }
        proof {
            assert(self.chars@.take(self.chars@.len() as int) =~= self.chars@);
        }
        out
    }

    /// Returns the content as a heap-allocated [`String`] if `self` is heap
    /// allocated.
    ///
    /// # Errors
    ///
    /// If `self` is inline, `Err(self)` will be returned.
    pub fn try_into_string(self) -> (r: Result<String, Self>)
        ensures
            self.spec_is_inline() ==> (r matches Err(e) && e == self),
            !self.spec_is_inline() ==> (r matches Ok(s) && s@ == self@),
    {
        if self.is_inline() {
            Err(self)
        } else {
            Ok(self.as_string())
        }
    }
}

/// Relies on `String::push`: appends the given character to the end of the
/// string.
#[verifier::external_body]
fn string_push_char(s: &mut String, c: char)
    ensures
        final(s)@ == old(s)@.push(c),
{
    s.push(c);
}

impl Default for NominalString {
    /// Returns an empty string.
    fn default() -> (r: Self)
        ensures
            r@ == Seq::<char>::empty(),
            r.spec_is_inline(),
    {
        Self::new()
    }
}

impl PartialEq for NominalString {
    /// Compares by logical string content, not by representation.
    fn eq(&self, other: &Self) -> (r: bool) {
        if self.chars.len() != other.chars.len() {
            return false;
        }
        let n = self.chars.len();
        let mut i: usize = 0;
        while i < n
            invariant
                n == self.chars@.len(),
                n == other.chars@.len(),
                0 <= i <= n,
                forall|j: int| 0 <= j < i ==> self.chars@[j] == other.chars@[j],
            decreases n - i,
        {
            if self.chars[i] != other.chars[i] {
                return false;
            }
            i = i + 1;
        }
        proof {
            assert(self.chars@ =~= other.chars@);
        }
        true
    }
}

/// The lexicographic code-point order of two character sequences.
pub open spec fn lex_order(a: Seq<char>, b: Seq<char>) -> core::cmp::Ordering
    decreases a.len(),
{
    if a.len() == 0 && b.len() == 0 {
        core::cmp::Ordering::Equal
    } else if a.len() == 0 {
        core::cmp::Ordering::Less
    } else if b.len() == 0 {
        core::cmp::Ordering::Greater
    } else if (a[0] as u32) < (b[0] as u32) {
        core::cmp::Ordering::Less
    } else if (b[0] as u32) < (a[0] as u32) {
        core::cmp::Ordering::Greater
    } else {
        lex_order(a.drop_first(), b.drop_first())
    }
}

impl PartialOrd for NominalString {
    /// Orders by logical string content, not by representation.
    fn partial_cmp(&self, other: &Self) -> (r: Option<core::cmp::Ordering>) {
        let an = self.chars.len();
        let bn = other.chars.len();
        let mut i: usize = 0;
        proof {
            assert(self.chars@.skip(0) =~= self.chars@);
            assert(other.chars@.skip(0) =~= other.chars@);
        }
        while i < an && i < bn
            invariant
                0 <= i <= an,
                0 <= i <= bn,
                an == self.chars@.len(),
                bn == other.chars@.len(),
                lex_order(self@, other@) == lex_order(
                    self.chars@.skip(i as int),
                    other.chars@.skip(i as int),
                ),
            decreases an - i,
        {
            let x = self.chars[i];
            let y = other.chars[i];
            proof {
                assert(self.chars@.skip(i as int)[0] == self.chars@[i as int]);
                assert(other.chars@.skip(i as int)[0] == other.chars@[i as int]);
            }
            if (x as u32) < (y as u32) {
                return Some(core::cmp::Ordering::Less);
            }
            if (y as u32) < (x as u32) {
                return Some(core::cmp::Ordering::Greater);
            }
            proof {
                assert(self.chars@.skip(i as int).drop_first() =~= self.chars@.skip(i + 1));
                assert(other.chars@.skip(i as int).drop_first() =~= other.chars@.skip(i + 1));
            }
            i = i + 1;
        }
        if an == bn {
            Some(core::cmp::Ordering::Equal)
        } else if an < bn {
            Some(core::cmp::Ordering::Less)
        } else {
            Some(core::cmp::Ordering::Greater)
        }
    }
}

impl vstd::std_specs::cmp::PartialOrdSpecImpl for NominalString {
    open spec fn obeys_partial_cmp_spec() -> bool {
        true
    }

    open spec fn partial_cmp_spec(&self, other: &Self) -> Option<core::cmp::Ordering> {
        Some(lex_order(self@, other@))
    }
}

impl Eq for NominalString {

}

impl vstd::std_specs::cmp::PartialEqSpecImpl for NominalString {
    open spec fn obeys_eq_spec() -> bool {
        true
    }

    open spec fn eq_spec(&self, other: &Self) -> bool {
        self@ == other@
    }
}

} // verus!
