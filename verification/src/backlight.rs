//! The touchbar backlight register: illumination intensity.
//!
//! The backlight attribute holds one of three fixed integer encodings. The
//! register caches the last value written, so asking again for the level
//! already set issues no underlying write — the common case when the idle
//! controller re-evaluates the same level on every tick. Construction reads
//! and parses the attribute once; unknown content is fatal to construction
//! (no silent fallback level is substituted).

use vstd::prelude::*;
use crate::attr::{parse_code_spec, parse_code};

verus! {

/// An illumination level of the touchbar.
#[derive(Clone, Copy, PartialEq, Eq, Structural, Debug)]
pub enum BacklightLevel {
    /// Backlight off.
    Off,
    /// Dimmed backlight.
    Dim,
    /// Full brightness.
    Max,
}

/// The fixed integer encoding written to the backlight attribute.
pub open spec fn level_code_spec(l: BacklightLevel) -> u8 {
    match l {
        BacklightLevel::Off => 0,
        BacklightLevel::Dim => 1,
        BacklightLevel::Max => 2,
    }
}

/// The encoding of `l`, as written to the hardware.
pub fn level_code(l: BacklightLevel) -> (c: u8)
    ensures
        c == level_code_spec(l),
{
    match l {
        BacklightLevel::Off => 0,
        BacklightLevel::Dim => 1,
        BacklightLevel::Max => 2,
    }
}

/// The level a raw encoding stands for, `None` for an unknown encoding.
pub open spec fn level_from_code_spec(c: u8) -> Option<BacklightLevel> {
    if c == 0 {
        Some(BacklightLevel::Off)
    } else if c == 1 {
        Some(BacklightLevel::Dim)
    } else if c == 2 {
        Some(BacklightLevel::Max)
    } else {
        None
    }
}

/// Decode a raw encoding read from the backlight attribute.
pub fn level_from_code(c: u8) -> (l: Option<BacklightLevel>)
    ensures
        l == level_from_code_spec(c),
{
    if c == 0 {
        Some(BacklightLevel::Off)
    } else if c == 1 {
        Some(BacklightLevel::Dim)
    } else if c == 2 {
        Some(BacklightLevel::Max)
    } else {
        None
    }
}

/// The level the attribute's raw content names, `None` when the content
/// does not parse to a known encoding.
pub open spec fn parse_level_spec(s: Seq<u8>) -> Option<BacklightLevel> {
    match parse_code_spec(s) {
        Some(c) => level_from_code_spec(c),
        None => None,
    }
}

/// Wraps the backlight brightness attribute. `current` mirrors the last
/// successful write (or the initial read); a failed write leaves it as is.
#[derive(Clone, Copy, PartialEq, Eq, Structural, Debug)]
pub struct BacklightRegister {
    /// The level of the last successful write (or the initial read).
    pub current: BacklightLevel,
}

impl BacklightRegister {
    /// Initial register state from the attribute's content as read once at
    /// startup. `None` is the unknown-state case, fatal to construction.
    pub fn from_attribute(bytes: &[u8]) -> (r: Option<BacklightRegister>)
        ensures
            r == (match parse_level_spec(bytes@) {
                Some(l) => Some(BacklightRegister { current: l }),
                None => None::<BacklightRegister>,
            }),
    {
        match parse_code(bytes) {
            Some(c) => match level_from_code(c) {
                Some(l) => Some(BacklightRegister { current: l }),
                None => None,
            },
            None => None,
        }
    }

    /// The encoding to write so the hardware shows `target`, or `None` when
    /// the cached value already matches and no write is to be issued.
    pub fn write_needed(&self, target: BacklightLevel) -> (r: Option<u8>)
        ensures
            r == (if self.current == target {
                None::<u8>
            } else {
                Some(level_code_spec(target))
            }),
    {
        if self.current == target {
            None
        } else {
            Some(level_code(target))
        }
    }

    /// Record that the write of `target`'s encoding succeeded. On a failed
    /// write the register is left untouched and this is never called.
    pub fn commit(&mut self, target: BacklightLevel)
        ensures
            final(self).current == target,
    {
        self.current = target;
    }
}

/// The register and the number of underlying writes issued by one
/// successful brightness request: the cached value makes a request for the
/// level already set a no-op, otherwise one write is issued and cached.
pub open spec fn set_outcome_spec(r: BacklightRegister, target: BacklightLevel) -> (
    BacklightRegister,
    nat,
) {
    if r.current == target {
        (r, 0)
    } else {
        (BacklightRegister { current: target }, 1)
    }
}

/// Setting the brightness is idempotent: two successive requests for the
/// same target issue at most one underlying write, and leave the register
/// caching exactly that target.
pub proof fn lemma_set_brightness_idempotent(r: BacklightRegister, target: BacklightLevel)
    ensures
        ({
            let (r1, writes1) = set_outcome_spec(r, target);
            let (r2, writes2) = set_outcome_spec(r1, target);
            &&& writes1 + writes2 <= 1
            &&& writes2 == 0
            &&& r2.current == target
        }),
{
}

} // verus!
