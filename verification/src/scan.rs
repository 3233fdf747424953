//! A pre-scan of response bodies before they are handed to the JSON decoder.
//!
//! The decoder accumulates a number's exponent digits into a machine word
//! with unchecked arithmetic, so a body such as `1e99999999999999999999`
//! would make it overflow.  The library therefore refuses, as malformed, any
//! body that holds - outside of a string literal - an exponent mark (`e` or
//! `E`, an optional sign) followed by ten or more digits, before the decoder
//! ever sees it.  Nine digits stay below 10^9, which every machine word
//! holds; the bound is conservative (a run of ten digits with leading zeros
//! is refused too, and so is such a run in text that is not valid JSON and
//! that the decoder would refuse anyway).
//!
//! String literals are tracked so that their contents stay data: a quote
//! opens a string, an unescaped quote closes it, and a backslash escapes the
//! byte after it.  The decoder lexes strings the same way, and it only reads
//! an exponent outside of one, so every body that passes this scan is safe
//! for it.  Bytes above ASCII never equal a quote, a backslash, an exponent
//! mark or a digit, so scanning bytes agrees with the decoder's scanning of
//! characters.

use vstd::prelude::*;

verus! {

/// Where a position in the body stands with respect to string literals.
#[derive(Clone, Copy, Debug, PartialEq, Eq, Structural)]
pub enum ScanState {
    /// Outside any string literal.
    Outside,
    /// Inside a string literal.
    InString,
    /// Inside a string literal, right after a backslash.
    Escaped,
}

/// Is the byte an ASCII digit?
pub open spec fn is_ascii_digit_byte(b: u8) -> bool {
    0x30 <= b && b <= 0x39
}

/// The scan state after reading one byte.
pub open spec fn scan_step(s: ScanState, b: u8) -> ScanState {
    match s {
        ScanState::Outside => if b == 0x22 {
            ScanState::InString
        } else {
            ScanState::Outside
        },
        ScanState::InString => if b == 0x22 {
            ScanState::Outside
        } else if b == 0x5C {
            ScanState::Escaped
        } else {
            ScanState::InString
        },
        ScanState::Escaped => ScanState::InString,
    }
}

/// The scan state before the byte at position `i`.
pub open spec fn state_at(bytes: Seq<u8>, i: int) -> ScanState
    decreases i,
{
    if i <= 0 {
        ScanState::Outside
    } else {
        scan_step(state_at(bytes, i - 1), bytes[i - 1])
    }
}

/// Where the digits of an exponent mark at position `i` would begin: after
/// the mark, skipping one optional sign.
pub open spec fn exp_digits_start(bytes: Seq<u8>, i: int) -> int {
    if i + 1 < bytes.len() && (bytes[i + 1] == 0x2B || bytes[i + 1] == 0x2D) {
        i + 2
    } else {
        i + 1
    }
}

/// Does position `i` hold an exponent mark, outside any string literal,
/// followed (after one optional sign) by at least ten digits?
pub open spec fn long_exponent_at(bytes: Seq<u8>, i: int) -> bool {
    let s = exp_digits_start(bytes, i);
    &&& 0 <= i < bytes.len()
    &&& (bytes[i] == 0x65 || bytes[i] == 0x45)
    &&& state_at(bytes, i) == ScanState::Outside
    &&& s + 10 <= bytes.len()
    &&& (forall|k: int| s <= k < s + 10 ==> is_ascii_digit_byte(bytes[k]))
}

/// Does the body hold, outside any string literal, an exponent mark followed
/// by at least ten digits?  Such a body is refused as malformed.
pub open spec fn has_long_exponent(bytes: Seq<u8>) -> bool {
    exists|i: int| long_exponent_at(bytes, i)
}

fn byte_is_digit(b: u8) -> (r: bool)
    ensures
        r == is_ascii_digit_byte(b),
{
    0x30 <= b && b <= 0x39
}

fn scan_step_exec(s: ScanState, b: u8) -> (r: ScanState)
    ensures
        r == scan_step(s, b),
{
    match s {
        ScanState::Outside => if b == 0x22 {
            ScanState::InString
        } else {
            ScanState::Outside
        },
        ScanState::InString => if b == 0x22 {
            ScanState::Outside
        } else if b == 0x5C {
            ScanState::Escaped
        } else {
            ScanState::InString
        },
        ScanState::Escaped => ScanState::InString,
    }
}

/// Scans the body for an exponent that the decoder could not digest.
pub fn scan_long_exponent(bytes: &[u8]) -> (r: bool)
    ensures
        r == has_long_exponent(bytes@),
{
    let n = bytes.len();
    let mut state = ScanState::Outside;
    let mut i: usize = 0;
    while i < n
        invariant
            0 <= i <= n,
            n == bytes@.len(),
            state == state_at(bytes@, i as int),
            forall|j: int| 0 <= j < i ==> !long_exponent_at(bytes@, j),
        decreases n - i,
    {
        let b = bytes[i];
        if (b == 0x65 || b == 0x45) && state == ScanState::Outside {
            let mut s: usize = i + 1;
            if i + 1 < n {
                let next = bytes[i + 1];
                if next == 0x2B || next == 0x2D {
                    s = i + 2;
                }
            }
            proof {
                assert(s as int == exp_digits_start(bytes@, i as int));
            }
            if n >= 10 && s <= n - 10 {
                let mut k: usize = 0;
                while k < 10 && byte_is_digit(bytes[s + k])
                    invariant
                        0 <= k <= 10,
                        s + 10 <= n,
                        n == bytes@.len(),
                        forall|t: int| s <= t < s + k ==> is_ascii_digit_byte(bytes@[t]),
                    decreases 10 - k,
                {
                    k = k + 1;
                }
                if k == 10 {
                    proof {
                        assert(long_exponent_at(bytes@, i as int));
                        assert(has_long_exponent(bytes@));
                    }
                    return true;
                }
                proof {
                    assert(!is_ascii_digit_byte(bytes@[s as int + k as int]));
                    assert(!long_exponent_at(bytes@, i as int));
                }
            } else {
                proof {
                    assert(!long_exponent_at(bytes@, i as int));
                }
            }
        } else {
            proof {
                assert(!long_exponent_at(bytes@, i as int));
            }
        }
        state = scan_step_exec(state, b);
        proof {
            assert(state == state_at(bytes@, i + 1));
        }
        i = i + 1;
    }
    proof {
        assert forall|j: int| !long_exponent_at(bytes@, j) by {
            if 0 <= j < bytes@.len() {
                assert(!long_exponent_at(bytes@, j));
            }
        }
    }
    false
}

} // verus!
