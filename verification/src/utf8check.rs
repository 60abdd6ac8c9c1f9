//! Executable UTF-8 validation, proved against `vstd::utf8::valid_utf8`.
//!
//! Every text embedded in a captured payload is declared to be UTF-8; a
//! payload whose declared string bytes are not valid UTF-8 is treated as
//! undecodable.  This module supplies the runtime check.
use vstd::prelude::*;

verus! {

use vstd::utf8::is_leading_byte_width_1;
use vstd::utf8::is_leading_byte_width_2;
use vstd::utf8::is_leading_byte_width_3;
use vstd::utf8::is_leading_byte_width_4;
use vstd::utf8::is_continuation_byte;
use vstd::utf8::codepoint_width_2;
use vstd::utf8::codepoint_width_3;
use vstd::utf8::codepoint_width_4;
use vstd::utf8::valid_first_scalar;
use vstd::utf8::length_of_first_scalar;
use vstd::utf8::pop_first_scalar;
use vstd::utf8::valid_utf8;

/// Checks whether a well-formed scalar encoding starts at position `i` of
/// `s`, returning its width in bytes if so.
fn check_scalar_at(s: &[u8], i: usize) -> (r: Option<usize>)
    requires
        i < s@.len(),
    ensures
        match r {
            Some(w) => {
                &&& valid_first_scalar(s@.skip(i as int))
                &&& length_of_first_scalar(s@.skip(i as int)) == w
                &&& 1 <= w <= 4
                &&& i + w <= s@.len()
            },
            None => !valid_first_scalar(s@.skip(i as int)),
        },
{
    let ghost t = s@.skip(i as int);
    let n = s.len();
    let b0 = s[i];
    assert(t[0] == s@[i as int]);
    if b0 <= 0x7f {
        assert((b0 & 0x7f) <= 0x7f) by (bit_vector);
        Some(1)
    } else if 0xc0 <= b0 && b0 <= 0xdf {
        if n - i < 2 {
            return None;
        }
        let b1 = s[i + 1];
        assert(t[1] == s@[i + 1]);
        if !(0x80 <= b1 && b1 <= 0xbf) {
            return None;
        }
        let cp: u32 = (((b0 & 0x1f) as u32) << 6u32) | ((b1 & 0x3f) as u32);
        assert(cp == codepoint_width_2(b0, b1));
        if cp < 0x80 {
            return None;
        }
        assert(((((b0 & 0x1f) as u32) << 6u32) | ((b1 & 0x3f) as u32)) <= 0x7ff) by (bit_vector);
        Some(2)
    } else if 0xe0 <= b0 && b0 <= 0xef {
        if n - i < 3 {
            return None;
        }
        let b1 = s[i + 1];
        let b2 = s[i + 2];
        assert(t[1] == s@[i + 1] && t[2] == s@[i + 2]);
        if !(0x80 <= b1 && b1 <= 0xbf) || !(0x80 <= b2 && b2 <= 0xbf) {
            return None;
        }
        let cp: u32 = (((b0 & 0x0f) as u32) << 12u32) | (((b1 & 0x3f) as u32) << 6u32) | ((b2
            & 0x3f) as u32);
        assert(cp == codepoint_width_3(b0, b1, b2));
        if cp < 0x800 {
            return None;
        }
        if 0xd800 <= cp && cp <= 0xdfff {
            return None;
        }
        Some(3)
    } else if 0xf0 <= b0 && b0 <= 0xf7 {
        if n - i < 4 {
            return None;
        }
        let b1 = s[i + 1];
        let b2 = s[i + 2];
        let b3 = s[i + 3];
        assert(t[1] == s@[i + 1] && t[2] == s@[i + 2] && t[3] == s@[i + 3]);
        if !(0x80 <= b1 && b1 <= 0xbf) || !(0x80 <= b2 && b2 <= 0xbf) || !(0x80 <= b3 && b3
            <= 0xbf) {
            return None;
        }
        let cp: u32 = (((b0 & 0x07) as u32) << 18u32) | (((b1 & 0x3f) as u32) << 12u32) | (((b2
            & 0x3f) as u32) << 6u32) | ((b3 & 0x3f) as u32);
        assert(cp == codepoint_width_4(b0, b1, b2, b3));
        if cp < 0x10000 || cp > 0x10ffff {
            return None;
        }
        Some(4)
    } else {
        assert(!is_leading_byte_width_1(t[0]));
        assert(!is_leading_byte_width_2(t[0]));
        assert(!is_leading_byte_width_3(t[0]));
        assert(!is_leading_byte_width_4(t[0]));
        None
    }
}

/// Whether `s` is a valid UTF-8 encoding in its entirety.
pub fn is_valid_utf8(s: &[u8]) -> (r: bool)
    ensures
        r == valid_utf8(s@),
{
    let n = s.len();
    let mut i: usize = 0;
    assert(s@.skip(0) =~= s@);
    while i < n
        invariant
            n == s@.len(),
            i <= n,
            valid_utf8(s@) == valid_utf8(s@.skip(i as int)),
        decreases n - i,
    {
        match check_scalar_at(s, i) {
            None => {
                assert(s@.skip(i as int).len() != 0);
                assert(!valid_utf8(s@.skip(i as int)));
                return false;
            },
            Some(w) => {
                proof {
                    let t = s@.skip(i as int);
                    assert(valid_utf8(t) == (valid_first_scalar(t) && valid_utf8(
                        pop_first_scalar(t),
                    )));
                    assert(pop_first_scalar(t) =~= s@.skip(i + w as int));
                }
                i += w;
            },
        }
    }
    assert(valid_utf8(s@.skip(n as int)));
    true
}

} // verus!
