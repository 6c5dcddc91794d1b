//! UTF-8 validity: a specification of well-formed UTF-8 byte sequences and a
//! verified validator.
//!
//! A sequence is well formed when it is a concatenation of encoded Unicode
//! scalar values: one byte below 0x80, or a lead byte followed by the right
//! number of continuation bytes, with overlong forms, surrogate code points
//! and values above U+10FFFF excluded (the lead/second-byte ranges below are
//! exactly the ones the Unicode standard tabulates).

use vstd::prelude::*;

verus! {

/// A continuation byte: `0x80..=0xBF`.
pub open spec fn is_cont(x: u8) -> bool {
    0x80 <= x && x <= 0xBF
}

/// Length of the well-formed encoded scalar value starting at index `i`,
/// or 0 when no well-formed encoding starts there.
pub open spec fn utf8_step(b: Seq<u8>, i: int) -> int
    recommends
        0 <= i < b.len(),
{
    let b0 = b[i];
    if b0 < 0x80 {
        1
    } else if 0xC2 <= b0 && b0 <= 0xDF {
        if i + 2 <= b.len() && is_cont(b[i + 1]) {
            2
        } else {
            0
        }
    } else if b0 == 0xE0 {
        if i + 3 <= b.len() && 0xA0 <= b[i + 1] && b[i + 1] <= 0xBF && is_cont(b[i + 2]) {
            3
        } else {
            0
        }
    } else if 0xE1 <= b0 && b0 <= 0xEC {
        if i + 3 <= b.len() && is_cont(b[i + 1]) && is_cont(b[i + 2]) {
            3
        } else {
            0
        }
    } else if b0 == 0xED {
        if i + 3 <= b.len() && 0x80 <= b[i + 1] && b[i + 1] <= 0x9F && is_cont(b[i + 2]) {
            3
        } else {
            0
        }
    } else if 0xEE <= b0 && b0 <= 0xEF {
        if i + 3 <= b.len() && is_cont(b[i + 1]) && is_cont(b[i + 2]) {
            3
        } else {
            0
        }
    } else if b0 == 0xF0 {
        if i + 4 <= b.len() && 0x90 <= b[i + 1] && b[i + 1] <= 0xBF && is_cont(b[i + 2])
            && is_cont(b[i + 3]) {
            4
        } else {
            0
        }
    } else if 0xF1 <= b0 && b0 <= 0xF3 {
        if i + 4 <= b.len() && is_cont(b[i + 1]) && is_cont(b[i + 2]) && is_cont(b[i + 3]) {
            4
        } else {
            0
        }
    } else if b0 == 0xF4 {
        if i + 4 <= b.len() && 0x80 <= b[i + 1] && b[i + 1] <= 0x8F && is_cont(b[i + 2])
            && is_cont(b[i + 3]) {
            4
        } else {
            0
        }
    } else {
        0
    }
}

/// The suffix of `b` starting at `i` is a concatenation of well-formed
/// encoded scalar values.
pub open spec fn is_utf8_from(b: Seq<u8>, i: int) -> bool
    recommends
        0 <= i <= b.len(),
    decreases b.len() - i,
{
    if i >= b.len() {
        true
    } else {
        let n = utf8_step(b, i);
        n > 0 && is_utf8_from(b, i + n)
    }
}

/// The whole of `b` is well-formed UTF-8.
pub open spec fn is_utf8(b: Seq<u8>) -> bool {
    is_utf8_from(b, 0)
}

/// Decide whether `b` is well-formed UTF-8.
pub fn validate_utf8(b: &Vec<u8>) -> (r: bool)
    ensures
        r == is_utf8(b@),
{
    let n = b.len();
    let mut i: usize = 0;
    while i < n
        invariant
            0 <= i <= n,
            n == b@.len(),
            is_utf8(b@) <==> is_utf8_from(b@, i as int),
        decreases n - i,
    {
        let b0 = b[i];
        let step: usize = if b0 < 0x80 {
            1
        } else if 0xC2 <= b0 && b0 <= 0xDF {
            if n - i >= 2 && 0x80 <= b[i + 1] && b[i + 1] <= 0xBF {
                2
            } else {
                0
            }
        } else if b0 == 0xE0 {
            if n - i >= 3 && 0xA0 <= b[i + 1] && b[i + 1] <= 0xBF && 0x80 <= b[i + 2] && b[i + 2]
                <= 0xBF {
                3
            } else {
                0
            }
        } else if 0xE1 <= b0 && b0 <= 0xEC {
            if n - i >= 3 && 0x80 <= b[i + 1] && b[i + 1] <= 0xBF && 0x80 <= b[i + 2] && b[i + 2]
                <= 0xBF {
                3
            } else {
                0
            }
        } else if b0 == 0xED {
            if n - i >= 3 && 0x80 <= b[i + 1] && b[i + 1] <= 0x9F && 0x80 <= b[i + 2] && b[i + 2]
                <= 0xBF {
                3
            } else {
                0
            }
        } else if 0xEE <= b0 && b0 <= 0xEF {
            if n - i >= 3 && 0x80 <= b[i + 1] && b[i + 1] <= 0xBF && 0x80 <= b[i + 2] && b[i + 2]
                <= 0xBF {
                3
            } else {
                0
            }
        } else if b0 == 0xF0 {
            if n - i >= 4 && 0x90 <= b[i + 1] && b[i + 1] <= 0xBF && 0x80 <= b[i + 2] && b[i + 2]
                <= 0xBF && 0x80 <= b[i + 3] && b[i + 3] <= 0xBF {
                4
            } else {
                0
            }
        } else if 0xF1 <= b0 && b0 <= 0xF3 {
            if n - i >= 4 && 0x80 <= b[i + 1] && b[i + 1] <= 0xBF && 0x80 <= b[i + 2] && b[i + 2]
                <= 0xBF && 0x80 <= b[i + 3] && b[i + 3] <= 0xBF {
                4
            } else {
                0
            }
        } else if b0 == 0xF4 {
            if n - i >= 4 && 0x80 <= b[i + 1] && b[i + 1] <= 0x8F && 0x80 <= b[i + 2] && b[i + 2]
                <= 0xBF && 0x80 <= b[i + 3] && b[i + 3] <= 0xBF {
                4
            } else {
                0
            }
        } else {
            0
        };
        assert(step as int == utf8_step(b@, i as int));
        if step == 0 {
            return false;
        }
        i = i + step;
    }
    true
}

} // verus!
