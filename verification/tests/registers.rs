//! The attribute codec, the two hardware registers, and the config default.

use touchbard::attr::{parse_code, render_code};
use touchbard::backlight::{BacklightLevel, BacklightRegister, level_code};
use touchbard::mode::{default_mode_from_config, mode_code, ModeRegister, TouchbarMode};

#[test]
fn parse_code_plain_digit() {
    assert_eq!(parse_code(b"0"), Some(0));
    assert_eq!(parse_code(b"7"), Some(7));
}

#[test]
fn parse_code_trims_whitespace() {
    assert_eq!(parse_code(b" 1\n"), Some(1));
    assert_eq!(parse_code(b"\t2 \r\n"), Some(2));
}

#[test]
fn parse_code_rejects_non_digit_content() {
    assert_eq!(parse_code(b""), None);
    assert_eq!(parse_code(b"   \n"), None);
    assert_eq!(parse_code(b"12"), None);
    assert_eq!(parse_code(b"x"), None);
    assert_eq!(parse_code(b"1 2"), None);
}

#[test]
fn render_code_is_one_digit() {
    assert_eq!(render_code(0), vec![b'0']);
    assert_eq!(render_code(2), vec![b'2']);
}

#[test]
fn mode_write_then_reread_yields_mode() {
    for m in [TouchbarMode::Esc, TouchbarMode::Function, TouchbarMode::Media] {
        let written = render_code(mode_code(m));
        let reread = ModeRegister::from_attribute(&written).unwrap();
        assert_eq!(reread.current, m);
        assert_eq!(written.len(), 1);
    }
}

#[test]
fn mode_register_unknown_state_is_fatal() {
    assert!(ModeRegister::from_attribute(b"3").is_none());
    assert!(ModeRegister::from_attribute(b"").is_none());
    assert!(ModeRegister::from_attribute(b"mode 1").is_none());
}

#[test]
fn mode_register_initial_read() {
    let reg = ModeRegister::from_attribute(b"2\n").unwrap();
    assert_eq!(reg.current, TouchbarMode::Media);
}

#[test]
fn mode_register_suppresses_redundant_write() {
    let mut reg = ModeRegister::from_attribute(b"1").unwrap();
    assert_eq!(reg.write_needed(TouchbarMode::Function), None);
    assert_eq!(reg.write_needed(TouchbarMode::Media), Some(2));
    reg.commit(TouchbarMode::Media);
    assert_eq!(reg.current, TouchbarMode::Media);
    assert_eq!(reg.write_needed(TouchbarMode::Media), None);
}

#[test]
fn backlight_register_initial_read() {
    let reg = BacklightRegister::from_attribute(b" 0\n").unwrap();
    assert_eq!(reg.current, BacklightLevel::Off);
}

#[test]
fn backlight_register_unknown_state_is_fatal() {
    assert!(BacklightRegister::from_attribute(b"5").is_none());
    assert!(BacklightRegister::from_attribute(b"bright").is_none());
}

#[test]
fn set_brightness_twice_issues_at_most_one_write() {
    let mut reg = BacklightRegister::from_attribute(b"0").unwrap();
    let mut writes = 0;
    if let Some(code) = reg.write_needed(BacklightLevel::Max) {
        assert_eq!(code, level_code(BacklightLevel::Max));
        writes += 1;
        reg.commit(BacklightLevel::Max);
    }
    if reg.write_needed(BacklightLevel::Max).is_some() {
        writes += 1;
    }
    assert_eq!(writes, 1);
    assert_eq!(reg.current, BacklightLevel::Max);
}

#[test]
fn set_brightness_to_current_level_is_a_no_op() {
    let reg = BacklightRegister::from_attribute(b"1").unwrap();
    assert_eq!(reg.write_needed(BacklightLevel::Dim), None);
}

#[test]
fn config_selects_function() {
    assert_eq!(default_mode_from_config(b"function"), TouchbarMode::Function);
    assert_eq!(default_mode_from_config(b" function\n"), TouchbarMode::Function);
}

#[test]
fn config_falls_back_to_media() {
    assert_eq!(default_mode_from_config(b"media"), TouchbarMode::Media);
    assert_eq!(default_mode_from_config(b""), TouchbarMode::Media);
    assert_eq!(default_mode_from_config(b"garbage"), TouchbarMode::Media);
    assert_eq!(default_mode_from_config(b"FUNCTION"), TouchbarMode::Media);
}
