//! Small arithmetic and character-wise string helpers.

use vstd::prelude::*;
use vstd::string::*;

verus! {

/// `val` clamped to `min..=max`, with the bounds compared as `i16` (a bound above
/// `i16::MAX` wraps when converted, as the `as` conversion does).
pub open spec fn clamped(min: usize, val: i16, max: usize) -> usize {
    if val <= min as i16 {
        min
    } else if val >= max as i16 {
        max
    } else {
        val as usize
    }
}

/// Clamps `val` to `min..=max`. A value strictly between the converted bounds must not
/// be negative, since it is then converted to `usize`.
pub fn usize_clamp(min: usize, val: i16, max: usize) -> (r: usize)
    requires
        (min as i16) < val < (max as i16) ==> val >= 0,
    ensures
        r == clamped(min, val, max),
{
    if val <= min as i16 {
        min
    } else if val >= max as i16 {
        max
    } else {
        val as usize
    }
}

/// What `(val + m) % m` gives when converted to `u8`.
pub open spec fn wrapped_mod(val: i16, m: u8) -> u8 {
    if val + m >= 0 {
        ((val + m) % (m as int)) as u8
    } else {
        0
    }
}

/// `(val + m) % m` as a `u8`. The sum must fit in an `i16`, `m` must not be zero, and a
/// negative sum must be a multiple of `m` (its remainder is then zero, not negative).
pub fn u8_mod(val: i16, m: u8) -> (r: u8)
    requires
        m > 0,
        val + m <= i16::MAX,
        val + m < 0 ==> (-(val + m)) % (m as int) == 0,
    ensures
        r == wrapped_mod(val, m),
{
    let s: i16 = val + (m as i16);
    if s >= 0 {
        ((s as u16) % (m as u16)) as u8
    } else {
        0
    }
}

/// The characters `char_split_at` and `char_insert` see before position `idx`.
pub open spec fn chars_before(s: Seq<char>, idx: int) -> Seq<char> {
    if idx < s.len() {
        s.take(idx)
    } else {
        s
    }
}

/// The characters from position `idx` on (empty past the end).
pub open spec fn chars_from(s: Seq<char>, idx: int) -> Seq<char> {
    if idx < s.len() {
        s.skip(idx)
    } else {
        Seq::empty()
    }
}

/// String operations that count characters rather than bytes.
pub trait CharWise {
    spec fn char_seq(&self) -> Seq<char>;

    fn char_len(&self) -> (r: usize)
        ensures
            r == self.char_seq().len(),
    ;

    /// Inserts `ch` before the character at `idx`, or at the end when `idx` is past it.
    fn char_insert(&mut self, idx: usize, ch: char)
        ensures
            final(self).char_seq() == chars_before(old(self).char_seq(), idx as int) + seq![ch]
                + chars_from(old(self).char_seq(), idx as int),
    ;

    /// Removes the character at `idx`, if there is one.
    fn char_remove(&mut self, idx: usize)
        ensures
            final(self).char_seq() == chars_before(old(self).char_seq(), idx as int)
                + chars_from(old(self).char_seq(), idx + 1),
    ;

    /// The characters before `idx`, the character at `idx` (or nothing), and the rest.
    fn char_split_at(&self, idx: usize) -> (r: (String, String, String))
        ensures
            r.0@ == chars_before(self.char_seq(), idx as int),
            r.1@ == chars_before(chars_from(self.char_seq(), idx as int), 1),
            r.2@ == chars_from(self.char_seq(), idx + 1),
    ;
}

impl CharWise for String {
    open spec fn char_seq(&self) -> Seq<char> {
        self@
    }

    fn char_len(&self) -> (r: usize) {
        self.as_str().unicode_len()
    }

    fn char_insert(&mut self, idx: usize, ch: char) {
        let n = self.as_str().unicode_len();
        let k = if idx < n { idx } else { n };
        let mut before = self.as_str().substring_char(0, k).to_owned();
        let after = self.as_str().substring_char(k, n).to_owned();
        crate::text::push_char(&mut before, ch);
        before.append(after.as_str());
        proof {
            if idx < n {
            } else {
                assert(old(self)@.subrange(0, n as int) =~= old(self)@);
                assert(old(self)@.subrange(n as int, n as int) =~= Seq::<char>::empty());
            }
            assert(old(self)@.subrange(0, k as int) =~= chars_before(old(self)@, idx as int));
        }
        *self = before;
    }

    fn char_remove(&mut self, idx: usize) {
        let n = self.as_str().unicode_len();
        if idx < n {
            let mut before = self.as_str().substring_char(0, idx).to_owned();
            let after = self.as_str().substring_char(idx + 1, n);
            before.append(after);
            proof {
                assert(old(self)@.subrange(0, idx as int) =~= old(self)@.take(idx as int));
                if idx + 1 < n {
                    assert(old(self)@.subrange(idx + 1, n as int) =~= old(self)@.skip(idx + 1));
                } else {
                    assert(old(self)@.subrange(idx + 1, n as int) =~= Seq::<char>::empty());
                }
            }
            *self = before;
        }
    }

    fn char_split_at(&self, idx: usize) -> (r: (String, String, String)) {
        let n = self.as_str().unicode_len();
        let k = if idx < n { idx } else { n };
        let k1 = if idx < n { idx + 1 } else { n };
        let before = self.as_str().substring_char(0, k).to_owned();
        let ch = self.as_str().substring_char(k, k1).to_owned();
        let after = self.as_str().substring_char(k1, n).to_owned();
        proof {
            let s = self@;
            assert(s.subrange(0, k as int) =~= chars_before(s, idx as int));
            if idx < n {
                assert(s.subrange(k as int, k1 as int) =~= chars_before(s.skip(idx as int), 1));
            } else {
                assert(s.subrange(k as int, k1 as int) =~= chars_before(Seq::<char>::empty(), 1));
            }
            if idx + 1 < n {
                assert(s.subrange(k1 as int, n as int) =~= chars_from(s, idx + 1));
            } else {
                assert(s.subrange(k1 as int, n as int) =~= chars_from(s, idx + 1));
            }
        }
        (before, ch, after)
    }
}

} // verus!
