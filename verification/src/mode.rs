//! The touchbar mode register: which legend set the hardware displays.
//!
//! The mode attribute holds one of three fixed integer encodings. The
//! register caches the last value written so redundant writes are
//! suppressed, and its construction parses the attribute's initial content;
//! content that is no known encoding is the fatal unknown-state case.
//! The startup default mode comes from a one-line config file and falls
//! back to `Media` when the content is absent or malformed.

use vstd::prelude::*;
use crate::attr::{parse_code_spec, trim_spec, parse_code, trim_bounds, ASCII_ZERO};

verus! {

/// A legend set the touchbar can display.
#[derive(Clone, Copy, PartialEq, Eq, Structural, Debug)]
pub enum TouchbarMode {
    /// Only an escape legend.
    Esc,
    /// The function-key legends.
    Function,
    /// The media-control legends.
    Media,
}

/// The fixed integer encoding written to the mode attribute.
pub open spec fn mode_code_spec(m: TouchbarMode) -> u8 {
    match m {
        TouchbarMode::Esc => 0,
        TouchbarMode::Function => 1,
        TouchbarMode::Media => 2,
    }
}

/// The encoding of `m`, as written to the hardware.
pub fn mode_code(m: TouchbarMode) -> (c: u8)
    ensures
        c == mode_code_spec(m),
{
    match m {
        TouchbarMode::Esc => 0,
        TouchbarMode::Function => 1,
        TouchbarMode::Media => 2,
    }
}

/// The mode a raw encoding stands for, `None` for an unknown encoding.
pub open spec fn mode_from_code_spec(c: u8) -> Option<TouchbarMode> {
    if c == 0 {
        Some(TouchbarMode::Esc)
    } else if c == 1 {
        Some(TouchbarMode::Function)
    } else if c == 2 {
        Some(TouchbarMode::Media)
    } else {
        None
    }
}

/// Decode a raw encoding read from the mode attribute.
pub fn mode_from_code(c: u8) -> (m: Option<TouchbarMode>)
    ensures
        m == mode_from_code_spec(c),
{
    if c == 0 {
        Some(TouchbarMode::Esc)
    } else if c == 1 {
        Some(TouchbarMode::Function)
    } else if c == 2 {
        Some(TouchbarMode::Media)
    } else {
        None
    }
}

/// The mode the attribute's raw content names, `None` when the content does
/// not parse to a known encoding.
pub open spec fn parse_mode_spec(s: Seq<u8>) -> Option<TouchbarMode> {
    match parse_code_spec(s) {
        Some(c) => mode_from_code_spec(c),
        None => None,
    }
}

/// Wraps the touchbar's mode-control attribute. `current` mirrors the last
/// successful write; it is never re-read from the hardware after writes.
#[derive(Clone, Copy, PartialEq, Eq, Structural, Debug)]
pub struct ModeRegister {
    /// The mode of the last successful write (or the initial read).
    pub current: TouchbarMode,
}

impl ModeRegister {
    /// Initial register state from the attribute's content as read once at
    /// startup. `None` is the unknown-state case, fatal to construction.
    pub fn from_attribute(bytes: &[u8]) -> (r: Option<ModeRegister>)
        ensures
            r == (match parse_mode_spec(bytes@) {
                Some(m) => Some(ModeRegister { current: m }),
                None => None::<ModeRegister>,
            }),
    {
        match parse_code(bytes) {
            Some(c) => match mode_from_code(c) {
                Some(m) => Some(ModeRegister { current: m }),
                None => None,
            },
            None => None,
        }
    }

    /// The encoding to write so the hardware displays `target`, or `None`
    /// when the cached value already matches and the write is redundant.
    pub fn write_needed(&self, target: TouchbarMode) -> (r: Option<u8>)
        ensures
            r == (if self.current == target {
                None::<u8>
            } else {
                Some(mode_code_spec(target))
            }),
    {
        if self.current == target {
            None
        } else {
            Some(mode_code(target))
        }
    }

    /// Record that the write of `target`'s encoding succeeded. On a failed
    /// write the register is left untouched and this is never called.
    pub fn commit(&mut self, target: TouchbarMode)
        ensures
            final(self).current == target,
    {
        self.current = target;
    }
}

/// A successful mode write followed by a re-read of the attribute yields
/// exactly the target's fixed encoding, as a single digit of text with no
/// other content, and that content parses back to the very mode written.
pub proof fn lemma_mode_write_round_trip(m: TouchbarMode)
    ensures
        ({
            let written = seq![(mode_code_spec(m) + ASCII_ZERO) as u8];
            &&& written.len() == 1
            &&& parse_mode_spec(written) == Some(m)
        }),
{
    assert(mode_code_spec(m) <= 9);
    crate::attr::lemma_render_parse_round_trip(mode_code_spec(m));
}

/// The word `function`, the one config content that selects `Function`.
pub open spec fn is_function_word(s: Seq<u8>) -> bool {
    &&& s.len() == 8
    &&& s[0] == 102
    &&& s[1] == 117
    &&& s[2] == 110
    &&& s[3] == 99
    &&& s[4] == 116
    &&& s[5] == 105
    &&& s[6] == 111
    &&& s[7] == 110
}

/// The startup default mode named by the config file's content: `Function`
/// for the word `function` (after trimming whitespace); anything else,
/// malformed content included, falls back to `Media`.
pub open spec fn default_mode_spec(s: Seq<u8>) -> TouchbarMode {
    if is_function_word(trim_spec(s)) {
        TouchbarMode::Function
    } else {
        TouchbarMode::Media
    }
}

/// Decide the startup default mode from the config file's content. A caller
/// with no config file at all passes empty content and gets the fallback.
pub fn default_mode_from_config(bytes: &[u8]) -> (m: TouchbarMode)
    ensures
        m == default_mode_spec(bytes@),
        m != TouchbarMode::Esc,
{
    let (i, j) = trim_bounds(bytes);
    proof {
        assert(trim_spec(bytes@).len() == j - i);
    }
    if j - i == 8 {
        let word_matches: bool = bytes[i] == 102 && bytes[i + 1] == 117 && bytes[i + 2] == 110
            && bytes[i + 3] == 99 && bytes[i + 4] == 116 && bytes[i + 5] == 105 && bytes[i + 6]
            == 111 && bytes[i + 7] == 110;
        proof {
            let t = trim_spec(bytes@);
            assert(forall|k: int| 0 <= k < 8 ==> t[k] == bytes@[i + k]);
        }
        if word_matches {
            TouchbarMode::Function
        } else {
            TouchbarMode::Media
        }
    } else {
        TouchbarMode::Media
    }
}

} // verus!
