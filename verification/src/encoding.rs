//! UTF-8 validity of byte sequences.
//!
//! A file name only counts as dot-prefixed when it decodes as text; this
//! module defines what "decodes as text" means for a byte sequence and
//! checks it executably. The definition follows the standard UTF-8
//! encoding: one- to four-byte sequences with the usual range
//! restrictions, excluding overlong forms, surrogates, and code points
//! beyond the last Unicode scalar value.

use vstd::prelude::*;

verus! {

/// A UTF-8 continuation byte: the second, third, or fourth byte of a
/// multi-byte sequence.
pub open spec fn is_continuation(b: u8) -> bool {
    0x80 <= b <= 0xBF
}

/// The length of the well-formed UTF-8 sequence that starts at index `i`
/// of `s`, or 0 if no well-formed sequence starts there.
pub open spec fn utf8_step(s: Seq<u8>, i: int) -> int {
    if !(0 <= i < s.len()) {
        0
    } else {
        let b0 = s[i];
        if b0 < 0x80 {
            1
        } else if 0xC2 <= b0 <= 0xDF {
            if i + 1 < s.len() && is_continuation(s[i + 1]) {
                2
            } else {
                0
            }
        } else if b0 == 0xE0 {
            if i + 2 < s.len() && 0xA0 <= s[i + 1] <= 0xBF && is_continuation(s[i + 2]) {
                3
            } else {
                0
            }
        } else if 0xE1 <= b0 <= 0xEC || 0xEE <= b0 <= 0xEF {
            if i + 2 < s.len() && is_continuation(s[i + 1]) && is_continuation(s[i + 2]) {
                3
            } else {
                0
            }
        } else if b0 == 0xED {
            if i + 2 < s.len() && 0x80 <= s[i + 1] <= 0x9F && is_continuation(s[i + 2]) {
                3
            } else {
                0
            }
        } else if b0 == 0xF0 {
            if i + 3 < s.len() && 0x90 <= s[i + 1] <= 0xBF && is_continuation(s[i + 2])
                && is_continuation(s[i + 3]) {
                4
            } else {
                0
            }
        } else if 0xF1 <= b0 <= 0xF3 {
            if i + 3 < s.len() && is_continuation(s[i + 1]) && is_continuation(s[i + 2])
                && is_continuation(s[i + 3]) {
                4
            } else {
                0
            }
        } else if b0 == 0xF4 {
            if i + 3 < s.len() && 0x80 <= s[i + 1] <= 0x8F && is_continuation(s[i + 2])
                && is_continuation(s[i + 3]) {
                4
            } else {
                0
            }
        } else {
            0
        }
    }
}

/// The bytes of `s` from index `i` on are a sequence of well-formed
/// UTF-8 encodings.
pub open spec fn valid_utf8_from(s: Seq<u8>, i: int) -> bool
    decreases s.len() - i,
{
    if i >= s.len() {
        true
    } else {
        utf8_step(s, i) > 0 && valid_utf8_from(s, i + utf8_step(s, i))
    }
}

/// The whole of `s` is well-formed UTF-8.
pub open spec fn valid_utf8(s: Seq<u8>) -> bool {
    valid_utf8_from(s, 0)
}

/// Whether `b` is a continuation byte.
fn continuation(b: u8) -> (r: bool)
    ensures
        r == is_continuation(b),
{
    0x80 <= b && b <= 0xBF
}

/// Checks that `bytes` is well-formed UTF-8.
pub fn is_valid_utf8(bytes: &[u8]) -> (r: bool)
    ensures
        r == valid_utf8(bytes@),
{
    let n: usize = bytes.len();
    let mut i: usize = 0;
    while i < n
        invariant
            i <= n,
            n == bytes@.len(),
            valid_utf8(bytes@) == valid_utf8_from(bytes@, i as int),
        decreases n - i,
    {
        let remaining: usize = n - i;
        let b0 = bytes[i];
        let step: usize = if b0 < 0x80 {
            1
        } else if 0xC2 <= b0 && b0 <= 0xDF {
            if remaining >= 2 && continuation(bytes[i + 1]) {
                2
            } else {
                0
            }
        } else if b0 == 0xE0 {
            if remaining >= 3 && 0xA0 <= bytes[i + 1] && bytes[i + 1] <= 0xBF && continuation(
                bytes[i + 2],
            ) {
                3
            } else {
                0
            }
        } else if (0xE1 <= b0 && b0 <= 0xEC) || (0xEE <= b0 && b0 <= 0xEF) {
            if remaining >= 3 && continuation(bytes[i + 1]) && continuation(bytes[i + 2]) {
                3
            } else {
                0
            }
        } else if b0 == 0xED {
            if remaining >= 3 && 0x80 <= bytes[i + 1] && bytes[i + 1] <= 0x9F && continuation(
                bytes[i + 2],
            ) {
                3
            } else {
                0
            }
        } else if b0 == 0xF0 {
            if remaining >= 4 && 0x90 <= bytes[i + 1] && bytes[i + 1] <= 0xBF && continuation(
                bytes[i + 2],
            ) && continuation(bytes[i + 3]) {
                4
            } else {
                0
            }
        } else if 0xF1 <= b0 && b0 <= 0xF3 {
            if remaining >= 4 && continuation(bytes[i + 1]) && continuation(bytes[i + 2])
                && continuation(bytes[i + 3]) {
                4
            } else {
                0
            }
        } else if b0 == 0xF4 {
            if remaining >= 4 && 0x80 <= bytes[i + 1] && bytes[i + 1] <= 0x8F && continuation(
                bytes[i + 2],
            ) && continuation(bytes[i + 3]) {
                4
            } else {
                0
            }
        } else {
            0
        };
        assert(step as int == utf8_step(bytes@, i as int));
        if step == 0 {
            return false;
        }
        i = i + step;
    }
    true
}

} // verus!
