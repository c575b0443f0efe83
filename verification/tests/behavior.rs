//! The activity clock, the idle controller, and the keyboard monitor.

use touchbard::backlight::{BacklightLevel, BacklightRegister};
use touchbard::clock::ActivityClock;
use touchbard::idle::{idle_policy, IdleController};
use touchbard::keyboard::{
    InputEvent, KeyboardMonitor, ModeAction, KEY_CODE_ESC, KEY_CODE_FN, KEY_VALUE_PRESS,
    KEY_VALUE_RELEASE,
};
use touchbard::mode::TouchbarMode;

fn fn_press() -> InputEvent {
    InputEvent::Key { code: KEY_CODE_FN, value: KEY_VALUE_PRESS }
}

fn fn_release() -> InputEvent {
    InputEvent::Key { code: KEY_CODE_FN, value: KEY_VALUE_RELEASE }
}

fn esc_press() -> InputEvent {
    InputEvent::Key { code: KEY_CODE_ESC, value: KEY_VALUE_PRESS }
}

#[test]
fn idle_policy_threshold_table() {
    let inputs = [0, 29, 30, 59, 60, 10000];
    let expected = [
        BacklightLevel::Max,
        BacklightLevel::Max,
        BacklightLevel::Dim,
        BacklightLevel::Dim,
        BacklightLevel::Off,
        BacklightLevel::Off,
    ];
    for (idle, level) in inputs.iter().zip(expected.iter()) {
        assert_eq!(idle_policy(*idle), *level);
    }
}

#[test]
fn touches_from_many_sources_are_never_lost() {
    let mut clock = ActivityClock::new(0);
    // interleaved touches from keyboard and trackpad observers, in the
    // order their critical sections happened to run
    clock.touch(1_000);
    clock.touch(90_000);
    clock.touch(90_050);
    clock.touch(90_100);
    // a reading right after the last touch sees no stale idle time
    assert_eq!(clock.idle_seconds(90_400), 0);
    assert_eq!(clock.last_event_ms, 90_100);
}

#[test]
fn idle_seconds_counts_whole_seconds() {
    let clock = ActivityClock::new(10_000);
    assert_eq!(clock.idle_seconds(10_999), 0);
    assert_eq!(clock.idle_seconds(11_000), 1);
    assert_eq!(clock.idle_seconds(70_000), 60);
}

#[test]
fn idle_seconds_is_zero_for_readings_before_last_event() {
    let clock = ActivityClock::new(5_000);
    assert_eq!(clock.idle_seconds(1_000), 0);
}

#[test]
fn controller_plans_policy_level_when_it_differs() {
    let ctl = IdleController::new(BacklightRegister::from_attribute(b"2").unwrap());
    assert_eq!(ctl.plan_tick(0), None);
    assert_eq!(ctl.plan_tick(30), Some(BacklightLevel::Dim));
    assert_eq!(ctl.plan_tick(60), Some(BacklightLevel::Off));
}

#[test]
fn controller_gives_up_after_three_consecutive_failures() {
    let mut ctl = IdleController::new(BacklightRegister::from_attribute(b"2").unwrap());
    assert_eq!(ctl.plan_tick(100), Some(BacklightLevel::Off));
    ctl.note_failure();
    ctl.note_failure();
    assert!(!ctl.has_given_up());
    ctl.note_failure();
    assert!(ctl.has_given_up());
    // no further brightness writes, however idle the system gets
    assert_eq!(ctl.plan_tick(100), None);
    assert_eq!(ctl.plan_tick(0), None);
    // the input monitors are untouched by the give-up
    let mut monitor = KeyboardMonitor::new(TouchbarMode::Media);
    assert_eq!(monitor.on_event(fn_press()), ModeAction::Switch(TouchbarMode::Function));
    let mut clock = ActivityClock::new(0);
    clock.touch(42);
    assert_eq!(clock.last_event_ms, 42);
}

#[test]
fn controller_success_resets_the_failure_count() {
    let mut ctl = IdleController::new(BacklightRegister::from_attribute(b"2").unwrap());
    ctl.note_failure();
    ctl.note_failure();
    ctl.note_success(BacklightLevel::Dim);
    assert_eq!(ctl.failures, 0);
    assert_eq!(ctl.backlight.current, BacklightLevel::Dim);
    ctl.note_failure();
    assert!(!ctl.has_given_up());
    assert_eq!(ctl.plan_tick(100), Some(BacklightLevel::Off));
}

#[test]
fn modifier_toggle_with_media_default() {
    let mut monitor = KeyboardMonitor::new(TouchbarMode::Media);
    assert_eq!(monitor.on_event(fn_press()), ModeAction::Switch(TouchbarMode::Function));
    assert!(monitor.fn_held);
    assert_eq!(monitor.on_event(fn_release()), ModeAction::Switch(TouchbarMode::Media));
    assert!(!monitor.fn_held);
}

#[test]
fn modifier_toggle_with_function_default() {
    let mut monitor = KeyboardMonitor::new(TouchbarMode::Function);
    assert_eq!(monitor.on_event(fn_press()), ModeAction::Switch(TouchbarMode::Media));
    assert_eq!(monitor.on_event(fn_release()), ModeAction::Switch(TouchbarMode::Function));
}

#[test]
fn hold_fn_tap_esc_flips_the_default() {
    let mut monitor = KeyboardMonitor::new(TouchbarMode::Media);
    assert_eq!(monitor.on_event(fn_press()), ModeAction::Switch(TouchbarMode::Function));
    // the tap changes no displayed mode, only the stored default
    assert_eq!(monitor.on_event(esc_press()), ModeAction::Keep);
    assert_eq!(monitor.default_mode, TouchbarMode::Function);
    // the next release reflects the new default, not the old one
    assert_eq!(monitor.on_event(fn_release()), ModeAction::Switch(TouchbarMode::Function));
}

#[test]
fn esc_without_held_modifier_changes_nothing() {
    let mut monitor = KeyboardMonitor::new(TouchbarMode::Media);
    assert_eq!(monitor.on_event(esc_press()), ModeAction::Keep);
    assert_eq!(monitor.default_mode, TouchbarMode::Media);
    assert!(!monitor.fn_held);
}

#[test]
fn autorepeat_values_are_ignored() {
    let mut monitor = KeyboardMonitor::new(TouchbarMode::Media);
    monitor.on_event(fn_press());
    let repeat = InputEvent::Key { code: KEY_CODE_FN, value: 2 };
    assert_eq!(monitor.on_event(repeat), ModeAction::Keep);
    assert!(monitor.fn_held);
    assert_eq!(monitor.default_mode, TouchbarMode::Media);
}

#[test]
fn non_key_events_only_count_as_activity() {
    let mut monitor = KeyboardMonitor::new(TouchbarMode::Function);
    assert_eq!(monitor.on_event(InputEvent::Other), ModeAction::Keep);
    assert_eq!(monitor.default_mode, TouchbarMode::Function);
    assert!(!monitor.fn_held);
}
