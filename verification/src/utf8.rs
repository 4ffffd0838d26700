//! UTF-8 validity of inbound payloads.
//!
//! Every inbound unit of data must be valid UTF-8 text; a payload that is
//! not is a decode failure and terminates its connection. Validity is
//! stated byte by byte, following the UTF-8 byte-range table: a scalar is
//! encoded in one to four bytes, whose admissible ranges rule out overlong
//! encodings, surrogate codepoints, and values past the last scalar.

use vstd::prelude::*;

verus! {

/// A continuation byte: `10xxxxxx`.
pub open spec fn is_continuation(b: u8) -> bool {
    0x80 <= b <= 0xBF
}

/// Validity of the byte suffix of `s` that starts at `i`: either the suffix
/// is empty, or it begins with one well-formed scalar encoding and the rest
/// is valid in turn.
///
/// The ranges are those of the UTF-8 definition: `00`–`7F` stands alone;
/// `C2`–`DF` leads a two-byte encoding (`C0`/`C1` would be overlong);
/// `E0`, `E1`–`EC`/`EE`/`EF` and `ED` lead three-byte encodings whose first
/// continuation is narrowed to rule out overlong forms and surrogates;
/// `F0`–`F4` lead four-byte encodings narrowed to the scalar range, which
/// ends at `10FFFF`.
pub open spec fn valid_utf8_from(s: Seq<u8>, i: int) -> bool
    decreases s.len() - i,
{
    if i >= s.len() {
        true
    } else {
        let b0 = s[i];
        if b0 < 0x80 {
            valid_utf8_from(s, i + 1)
        } else if 0xC2 <= b0 && b0 <= 0xDF {
            &&& i + 1 < s.len()
            &&& is_continuation(s[i + 1])
            &&& valid_utf8_from(s, i + 2)
        } else if b0 == 0xE0 {
            &&& i + 2 < s.len()
            &&& 0xA0 <= s[i + 1] <= 0xBF
            &&& is_continuation(s[i + 2])
            &&& valid_utf8_from(s, i + 3)
        } else if (0xE1 <= b0 && b0 <= 0xEC) || b0 == 0xEE || b0 == 0xEF {
            &&& i + 2 < s.len()
            &&& is_continuation(s[i + 1])
            &&& is_continuation(s[i + 2])
            &&& valid_utf8_from(s, i + 3)
        } else if b0 == 0xED {
            &&& i + 2 < s.len()
            &&& 0x80 <= s[i + 1] <= 0x9F
            &&& is_continuation(s[i + 2])
            &&& valid_utf8_from(s, i + 3)
        } else if b0 == 0xF0 {
            &&& i + 3 < s.len()
            &&& 0x90 <= s[i + 1] <= 0xBF
            &&& is_continuation(s[i + 2])
            &&& is_continuation(s[i + 3])
            &&& valid_utf8_from(s, i + 4)
        } else if 0xF1 <= b0 && b0 <= 0xF3 {
            &&& i + 3 < s.len()
            &&& is_continuation(s[i + 1])
            &&& is_continuation(s[i + 2])
            &&& is_continuation(s[i + 3])
            &&& valid_utf8_from(s, i + 4)
        } else if b0 == 0xF4 {
            &&& i + 3 < s.len()
            &&& 0x80 <= s[i + 1] <= 0x8F
            &&& is_continuation(s[i + 2])
            &&& is_continuation(s[i + 3])
            &&& valid_utf8_from(s, i + 4)
        } else {
            false
        }
    }
}

/// A byte sequence is valid UTF-8 text when it parses as a sequence of
/// well-formed scalar encodings from its start to its end.
pub open spec fn is_valid_utf8(s: Seq<u8>) -> bool {
    valid_utf8_from(s, 0)
}

/// Decides whether `s` is valid UTF-8 text.
pub fn check_utf8(s: &[u8]) -> (r: bool)
    ensures
        r == is_valid_utf8(s@),
{
    let n = s.len();
    let mut i: usize = 0;
    while i < n
        invariant
            n == s@.len(),
            i <= n,
            is_valid_utf8(s@) == valid_utf8_from(s@, i as int),
        decreases n - i,
    {
        let b0 = s[i];
        if b0 < 0x80 {
            i += 1;
        } else if 0xC2 <= b0 && b0 <= 0xDF {
            if n - i >= 2 && is_cont(s[i + 1]) {
                i += 2;
            } else {
                return false;
            }
        } else if b0 == 0xE0 {
            if n - i >= 3 && 0xA0 <= s[i + 1] && s[i + 1] <= 0xBF && is_cont(s[i + 2]) {
                i += 3;
            } else {
                return false;
            }
        } else if (0xE1 <= b0 && b0 <= 0xEC) || b0 == 0xEE || b0 == 0xEF {
            if n - i >= 3 && is_cont(s[i + 1]) && is_cont(s[i + 2]) {
                i += 3;
            } else {
                return false;
            }
        } else if b0 == 0xED {
            if n - i >= 3 && 0x80 <= s[i + 1] && s[i + 1] <= 0x9F && is_cont(s[i + 2]) {
                i += 3;
            } else {
                return false;
            }
        } else if b0 == 0xF0 {
            if n - i >= 4 && 0x90 <= s[i + 1] && s[i + 1] <= 0xBF && is_cont(s[i + 2])
                && is_cont(s[i + 3]) {
                i += 4;
            } else {
                return false;
            }
        } else if 0xF1 <= b0 && b0 <= 0xF3 {
            if n - i >= 4 && is_cont(s[i + 1]) && is_cont(s[i + 2]) && is_cont(s[i + 3]) {
                i += 4;
            } else {
                return false;
            }
        } else if b0 == 0xF4 {
            if n - i >= 4 && 0x80 <= s[i + 1] && s[i + 1] <= 0x8F && is_cont(s[i + 2])
                && is_cont(s[i + 3]) {
                i += 4;
            } else {
                return false;
            }
        } else {
            return false;
        }
    }
    true
}

/// Decides whether `b` is a continuation byte.
fn is_cont(b: u8) -> (r: bool)
    ensures
        r == is_continuation(b),
{
    0x80 <= b && b <= 0xBF
}

} // verus!
