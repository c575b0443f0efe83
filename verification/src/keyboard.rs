//! The keyboard input monitor: modifier transitions drive the mode register.
//!
//! Every observed event counts as activity (the caller touches the activity
//! clock); beyond that, only three key transitions matter. Pressing the
//! function-row modifier shows the mode that is not the default; releasing
//! it shows the default again. Tapping Escape while the modifier is held
//! flips the stored default itself, taking effect on the next release.
//! Autorepeat events carry a value of their own and change nothing: only
//! discrete press and release transitions are meaningful.

use vstd::prelude::*;
use crate::mode::TouchbarMode;

verus! {

/// Event code of the function-row modifier key.
pub const KEY_CODE_FN: u16 = 464;

/// Event code of the Escape key.
pub const KEY_CODE_ESC: u16 = 1;

/// Event value of a key release transition.
pub const KEY_VALUE_RELEASE: i32 = 0;

/// Event value of a key press transition.
pub const KEY_VALUE_PRESS: i32 = 1;

/// The subset of an input event the monitor consumes: a key transition with
/// its code and value, or any other event, which only counts as activity.
#[derive(Clone, Copy, PartialEq, Eq, Structural, Debug)]
pub enum InputEvent {
    /// A key changed state: `value` 1 is a press, 0 a release; any other
    /// value (autorepeat among them) changes nothing.
    Key { code: u16, value: i32 },
    /// Any event that is not a key transition.
    Other,
}

/// What the monitor asks of the mode register for one event.
#[derive(Clone, Copy, PartialEq, Eq, Structural, Debug)]
pub enum ModeAction {
    /// Leave the displayed mode as it is.
    Keep,
    /// Display this mode; a failure of the underlying write is fatal.
    Switch(TouchbarMode),
}

/// The mode that is not the given default, for the modifier toggle and the
/// default-flipping gesture. Defaults are only ever `Function` or `Media`.
pub open spec fn other_mode_spec(m: TouchbarMode) -> TouchbarMode {
    match m {
        TouchbarMode::Function => TouchbarMode::Media,
        TouchbarMode::Media => TouchbarMode::Function,
        TouchbarMode::Esc => TouchbarMode::Media,
    }
}

/// The counterpart of a default mode: `Function` for `Media` and back.
pub fn other_mode(m: TouchbarMode) -> (r: TouchbarMode)
    ensures
        r == other_mode_spec(m),
{
    match m {
        TouchbarMode::Function => TouchbarMode::Media,
        TouchbarMode::Media => TouchbarMode::Function,
        TouchbarMode::Esc => TouchbarMode::Media,
    }
}

/// The keyboard monitor's state: the persisted default legend set and
/// whether the function-row modifier is held right now.
#[derive(Clone, Copy, PartialEq, Eq, Structural, Debug)]
pub struct KeyboardMonitor {
    /// The mode shown when no modifier is held; flipped by the
    /// hold-modifier-tap-Escape gesture.
    pub default_mode: TouchbarMode,
    /// Whether the function-row modifier is currently held down.
    pub fn_held: bool,
}

/// The monitor's next state and the mode action it takes for one event.
pub open spec fn step_spec(m: KeyboardMonitor, ev: InputEvent) -> (KeyboardMonitor, ModeAction) {
    match ev {
        InputEvent::Key { code, value } => {
            if code == KEY_CODE_FN && value == KEY_VALUE_PRESS {
                (
                    KeyboardMonitor { default_mode: m.default_mode, fn_held: true },
                    ModeAction::Switch(other_mode_spec(m.default_mode)),
                )
            } else if code == KEY_CODE_FN && value == KEY_VALUE_RELEASE {
                (
                    KeyboardMonitor { default_mode: m.default_mode, fn_held: false },
                    ModeAction::Switch(m.default_mode),
                )
            } else if code == KEY_CODE_ESC && value == KEY_VALUE_PRESS && m.fn_held {
                (
                    KeyboardMonitor { default_mode: other_mode_spec(m.default_mode), fn_held: m.fn_held },
                    ModeAction::Keep,
                )
            } else {
                (m, ModeAction::Keep)
            }
        },
        InputEvent::Other => (m, ModeAction::Keep),
    }
}

impl KeyboardMonitor {
    /// A monitor only ever carries `Function` or `Media` as its default.
    pub open spec fn wf(&self) -> bool {
        self.default_mode != TouchbarMode::Esc
    }

    /// A fresh monitor around the configured default, with the modifier not
    /// held.
    pub fn new(default_mode: TouchbarMode) -> (m: KeyboardMonitor)
        requires
            default_mode != TouchbarMode::Esc,
        ensures
            m.default_mode == default_mode,
            !m.fn_held,
            m.wf(),
    {
        KeyboardMonitor { default_mode, fn_held: false }
    }

    /// Consume one input event: update the held-modifier flag and the
    /// stored default, and return the mode the register is to display.
    pub fn on_event(&mut self, ev: InputEvent) -> (a: ModeAction)
        ensures
            (*final(self), a) == step_spec(*old(self), ev),
            old(self).wf() ==> final(self).wf(),
    {
        match ev {
            InputEvent::Key { code, value } => {
                if code == KEY_CODE_FN && value == KEY_VALUE_PRESS {
                    self.fn_held = true;
                    ModeAction::Switch(other_mode(self.default_mode))
                } else if code == KEY_CODE_FN && value == KEY_VALUE_RELEASE {
                    self.fn_held = false;
                    ModeAction::Switch(self.default_mode)
                } else if code == KEY_CODE_ESC && value == KEY_VALUE_PRESS && self.fn_held {
                    self.default_mode = other_mode(self.default_mode);
                    ModeAction::Keep
                } else {
                    ModeAction::Keep
                }
            },
            InputEvent::Other => ModeAction::Keep,
        }
    }
}

/// The modifier toggles away from the default and back: pressing the
/// function-row modifier shows the mode that is not the default, and the
/// matching release shows the default itself — with `Media` as default the
/// press shows `Function`, with `Function` it shows `Media`.
pub proof fn lemma_modifier_toggle(m: KeyboardMonitor)
    requires
        m.wf(),
    ensures
        ({
            let press = InputEvent::Key { code: KEY_CODE_FN, value: KEY_VALUE_PRESS };
            let release = InputEvent::Key { code: KEY_CODE_FN, value: KEY_VALUE_RELEASE };
            let pressed = step_spec(m, press);
            let released = step_spec(pressed.0, release);
            &&& m.default_mode == TouchbarMode::Media ==> pressed.1 == ModeAction::Switch(
                TouchbarMode::Function,
            )
            &&& m.default_mode == TouchbarMode::Function ==> pressed.1 == ModeAction::Switch(
                TouchbarMode::Media,
            )
            &&& pressed.0.fn_held
            &&& released.1 == ModeAction::Switch(m.default_mode)
            &&& !released.0.fn_held
        }),
{
}

/// Holding the modifier and tapping Escape flips the stored default, while
/// the displayed mode is left alone; the next modifier release then shows
/// the new default, not the old one.
pub proof fn lemma_gesture_flips_default(m: KeyboardMonitor)
    requires
        m.wf(),
        !m.fn_held,
    ensures
        ({
            let fn_press = InputEvent::Key { code: KEY_CODE_FN, value: KEY_VALUE_PRESS };
            let esc_press = InputEvent::Key { code: KEY_CODE_ESC, value: KEY_VALUE_PRESS };
            let fn_release = InputEvent::Key { code: KEY_CODE_FN, value: KEY_VALUE_RELEASE };
            let held = step_spec(m, fn_press);
            let flipped = step_spec(held.0, esc_press);
            let released = step_spec(flipped.0, fn_release);
            &&& flipped.0.default_mode == other_mode_spec(m.default_mode)
            &&& flipped.1 == ModeAction::Keep
            &&& released.1 == ModeAction::Switch(other_mode_spec(m.default_mode))
            &&& released.1 != ModeAction::Switch(m.default_mode)
        }),
{
}

/// Autorepeat is ignored: a key event whose value is neither a press nor a
/// release leaves the monitor's state untouched and asks nothing of the
/// mode register.
pub proof fn lemma_repeat_ignored(m: KeyboardMonitor, code: u16, value: i32)
    requires
        value != KEY_VALUE_PRESS,
        value != KEY_VALUE_RELEASE,
    ensures
        step_spec(m, InputEvent::Key { code, value }) == (m, ModeAction::Keep),
{
}

} // verus!
