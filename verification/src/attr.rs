//! Reading and writing the content of a hardware attribute pseudo-file.
//!
//! Both touchbar attributes (mode selector and backlight brightness) hold a
//! single decimal digit, possibly surrounded by ASCII whitespace when read
//! back. This module parses such content into the digit's value and renders
//! a digit for writing, with the round trip proved exact.

use vstd::prelude::*;

verus! {

/// ASCII code of the space character.
pub const ASCII_SPACE: u8 = 32;

/// ASCII code of the horizontal tab character.
pub const ASCII_TAB: u8 = 9;

/// ASCII code of the line feed character.
pub const ASCII_LF: u8 = 10;

/// ASCII code of the carriage return character.
pub const ASCII_CR: u8 = 13;

/// ASCII code of the digit `0`.
pub const ASCII_ZERO: u8 = 48;

/// ASCII code of the digit `9`.
pub const ASCII_NINE: u8 = 57;


/// The ASCII whitespace bytes that may surround an attribute's payload.
pub open spec fn is_ws_spec(b: u8) -> bool {
    b == ASCII_SPACE || b == ASCII_TAB || b == ASCII_LF || b == ASCII_CR
}

fn is_ws(b: u8) -> (r: bool)
    ensures
        r == is_ws_spec(b),
{
    b == ASCII_SPACE || b == ASCII_TAB || b == ASCII_LF || b == ASCII_CR
}

/// The sequence with its leading whitespace removed.
pub open spec fn trim_left_spec(s: Seq<u8>) -> Seq<u8>
    decreases s.len(),
{
    if s.len() > 0 && is_ws_spec(s[0]) {
        trim_left_spec(s.drop_first())
    } else {
        s
    }
}

/// The sequence with its trailing whitespace removed.
pub open spec fn trim_right_spec(s: Seq<u8>) -> Seq<u8>
    decreases s.len(),
{
    if s.len() > 0 && is_ws_spec(s.last()) {
        trim_right_spec(s.drop_last())
    } else {
        s
    }
}

/// The sequence with whitespace removed from both ends.
pub open spec fn trim_spec(s: Seq<u8>) -> Seq<u8> {
    trim_right_spec(trim_left_spec(s))
}

/// Bounds `(i, j)` of the whitespace-trimmed region of `bytes`.
pub fn trim_bounds(bytes: &[u8]) -> (r: (usize, usize))
    ensures
        0 <= r.0 <= r.1 <= bytes@.len(),
        trim_spec(bytes@) == bytes@.subrange(r.0 as int, r.1 as int),
{
    let n: usize = bytes.len();
    let mut i: usize = 0;
    proof {
        assert(bytes@.skip(0) =~= bytes@);
    }
    while i < n && is_ws(bytes[i])
        invariant
            n == bytes@.len(),
            i <= n,
            trim_left_spec(bytes@) == trim_left_spec(bytes@.skip(i as int)),
        decreases n - i,
    {
        proof {
            assert(bytes@.skip(i as int)[0] == bytes@[i as int]);
            assert(bytes@.skip(i as int).drop_first() =~= bytes@.skip(i as int + 1));
        }
        i = i + 1;
    }
    proof {
        if i < n {
            assert(bytes@.skip(i as int)[0] == bytes@[i as int]);
        }
        assert(trim_left_spec(bytes@) == bytes@.skip(i as int));
        assert(bytes@.skip(i as int) =~= bytes@.subrange(i as int, n as int));
    }
    let mut j: usize = n;
    while j > i && is_ws(bytes[j - 1])
        invariant
            n == bytes@.len(),
            i <= j <= n,
            trim_left_spec(bytes@) == bytes@.subrange(i as int, n as int),
            trim_right_spec(bytes@.subrange(i as int, n as int)) == trim_right_spec(
                bytes@.subrange(i as int, j as int),
            ),
        decreases j,
    {
        proof {
            assert(bytes@.subrange(i as int, j as int).last() == bytes@[j - 1]);
            assert(bytes@.subrange(i as int, j as int).drop_last() =~= bytes@.subrange(
                i as int,
                j as int - 1,
            ));
        }
        j = j - 1;
    }
    proof {
        if j > i {
            assert(bytes@.subrange(i as int, j as int).last() == bytes@[j - 1]);
        }
        assert(trim_right_spec(bytes@.subrange(i as int, j as int)) == bytes@.subrange(
            i as int,
            j as int,
        ));
    }
    (i, j)
}

/// The digit's value, when the trimmed content is exactly one ASCII digit.
pub open spec fn parse_code_spec(s: Seq<u8>) -> Option<u8> {
    let t = trim_spec(s);
    if t.len() == 1 && ASCII_ZERO <= t[0] <= ASCII_NINE {
        Some((t[0] - ASCII_ZERO) as u8)
    } else {
        None
    }
}

/// Parse an attribute's raw content into its digit value; `None` when the
/// content is not a single decimal digit surrounded only by whitespace.
pub fn parse_code(bytes: &[u8]) -> (r: Option<u8>)
    ensures
        r == parse_code_spec(bytes@),
{
    let (i, j) = trim_bounds(bytes);
    if j - i == 1 {
        let b = bytes[i];
        proof {
            assert(trim_spec(bytes@)[0] == bytes@[i as int]);
        }
        if ASCII_ZERO <= b && b <= ASCII_NINE {
            Some(b - ASCII_ZERO)
        } else {
            None
        }
    } else {
        None
    }
}

/// Render a digit value as the exact bytes to write to an attribute.
pub fn render_code(code: u8) -> (v: Vec<u8>)
    requires
        code <= 9,
    ensures
        v@ == seq![(code + ASCII_ZERO) as u8],
{
    let mut v: Vec<u8> = Vec::new();
    v.push(code + ASCII_ZERO);
    proof {
        assert(v@ =~= seq![(code + ASCII_ZERO) as u8]);
    }
    v
}

/// Rendering a digit and parsing the rendered content yields the digit back:
/// what a register writes is exactly what a re-read of the attribute shows.
pub proof fn lemma_render_parse_round_trip(code: u8)
    requires
        code <= 9,
    ensures
        parse_code_spec(seq![(code + ASCII_ZERO) as u8]) == Some(code),
{
    let s = seq![(code + ASCII_ZERO) as u8];
    assert(s.len() == 1);
    assert(s[0] == code + ASCII_ZERO);
    assert(!is_ws_spec(s[0]));
    assert(trim_left_spec(s) == s);
    assert(s.last() == s[0]);
    assert(trim_right_spec(s) == s);
    assert(trim_spec(s) == s);
}

} // verus!
