//! Core logic of a touchbar daemon: the mode state machine driven by
//! keyboard modifier transitions, the idle-driven backlight controller,
//! the shared activity clock, and the parsing and rendering of the
//! hardware attribute files they speak through.

pub mod attr;
pub mod backlight;
pub mod clock;
pub mod idle;
pub mod keyboard;
pub mod mode;
