use chip8::display::Display;
use chip8::keypad::Keypad;
use chip8::menu::{back_to_main, change_emulator_state, move_cursor, quit_emulator, EmulatorState, MenuKey};
use chip8::variant::{Variant, VARIANT_COUNT};

#[test]
fn escape_quits() {
    let mut state = EmulatorState::Active;
    quit_emulator(&mut state, Some(MenuKey::Escape), EmulatorState::Active);
    assert_eq!(state, EmulatorState::Quit);
}

#[test]
fn quit_ignores_backspace_and_defaults_otherwise() {
    let mut state = EmulatorState::Start;
    quit_emulator(&mut state, Some(MenuKey::Backspace), EmulatorState::Active);
    assert_eq!(state, EmulatorState::Start);
    quit_emulator(&mut state, Some(MenuKey::Other), EmulatorState::Active);
    assert_eq!(state, EmulatorState::Active);
    let mut state = EmulatorState::Start;
    quit_emulator(&mut state, None, EmulatorState::Start);
    assert_eq!(state, EmulatorState::Start);
}

#[test]
fn backspace_goes_back_to_menu() {
    let mut state = EmulatorState::Active;
    back_to_main(&mut state, Some(MenuKey::Backspace), EmulatorState::Active);
    assert_eq!(state, EmulatorState::Start);
    let mut state = EmulatorState::Quit;
    back_to_main(&mut state, Some(MenuKey::Escape), EmulatorState::Active);
    assert_eq!(state, EmulatorState::Quit);
    back_to_main(&mut state, None, EmulatorState::Active);
    assert_eq!(state, EmulatorState::Active);
}

#[test]
fn change_state() {
    let mut state = EmulatorState::Start;
    change_emulator_state(&mut state, EmulatorState::Quit);
    assert_eq!(state, EmulatorState::Quit);
}

#[test]
fn cursor_wraps_around() {
    assert_eq!(VARIANT_COUNT, 2);
    assert_eq!(move_cursor(0, true, false), 1);
    assert_eq!(move_cursor(1, true, false), 0);
    assert_eq!(move_cursor(0, false, true), 1);
    assert_eq!(move_cursor(1, false, true), 0);
    assert_eq!(move_cursor(1, false, false), 1);
}

#[test]
fn cursor_down_then_up_returns() {
    assert_eq!(move_cursor(0, true, true), 0);
    assert_eq!(move_cursor(1, true, true), 1);
}

#[test]
fn variant_names_and_positions() {
    assert_eq!(Variant::CHIP8.to_str(), "CHIP-8");
    assert_eq!(Variant::CHIP48.to_str(), "CHIP-48");
    assert_eq!(Variant::to_var(0), Variant::CHIP8);
    assert_eq!(Variant::to_var(1), Variant::CHIP48);
    assert_eq!(Variant::to_var(7), Variant::CHIP48);
}

#[test]
fn keypad_reports_keys() {
    let mut keypad = Keypad::idle();
    assert!(!keypad.is_down(3));
    keypad.down[3] = true;
    assert!(keypad.is_down(3));
    assert_eq!(keypad.pressed, None);
}

#[test]
fn display_clear_and_pixel() {
    let mut display = Display::on();
    display.panel[2 * 64 + 5] = true;
    assert!(display.pixel(5, 2));
    display.clear();
    assert!(!display.pixel(5, 2));
    assert_eq!(display.width, 64);
}

#[test]
fn display_size_check() {
    let mut display = Display::on();
    assert!(display.has_screen_size());
    display.width = 10;
    assert!(!display.has_screen_size());
}

#[test]
fn cursor_at_large_values() {
    assert_eq!(move_cursor(usize::MAX, false, false), usize::MAX);
    assert_eq!(move_cursor(usize::MAX - 1, true, false), 1);
    assert_eq!(move_cursor(usize::MAX - 1, true, true), 0);
    assert_eq!(move_cursor(usize::MAX - 2, false, true), 0);
}
