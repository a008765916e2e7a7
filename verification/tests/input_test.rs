use gauntlet::keycode;
use gauntlet::setting;
use gauntlet::setting::SettingInput;
use gauntlet::user::{board_key_name, GlyphKind, Input, LocaleKind, UserInput};

fn latches(input: &Input) -> (bool, bool) {
    match input {
        Input::Board { press, release, .. } => (*press, *release),
        Input::Mouse { press, release, .. } => (*press, *release),
        Input::Pad { press, release, .. } => (*press, *release),
    }
}

#[test]
fn new_inputs_start_unlatched() {
    let board = Input::new_board(keycode::KEY_W);
    let mouse = Input::new_mouse(keycode::MOUSE_BUTTON_LEFT);
    let pad = Input::new_pad(keycode::GAMEPAD_BUTTON_RIGHT_FACE_DOWN);
    assert_eq!(latches(&board), (false, false));
    assert_eq!(latches(&mouse), (false, false));
    assert_eq!(latches(&pad), (false, false));
    assert_eq!(board.key(), 87);
    assert_eq!(mouse.key(), 0);
    assert_eq!(pad.key(), 7);
}

#[test]
fn poll_latches_until_wipe() {
    let mut input = Input::new_board(keycode::KEY_SPACE);
    input.poll(true, false);
    assert!(input.press());
    assert!(!input.release());
    input.poll(false, false);
    assert!(input.press(), "a latch is kept over frames without events");
    input.poll(false, true);
    assert!(input.press());
    assert!(input.release());
    input.wipe();
    assert!(!input.press());
    assert!(!input.release());
    assert_eq!(input.key(), keycode::KEY_SPACE);
    assert!(matches!(input, Input::Board { .. }));
}

#[test]
fn release_reads_without_clearing() {
    let mut input = Input::new_mouse(keycode::MOUSE_BUTTON_RIGHT);
    input.poll(false, true);
    assert!(input.release());
    assert!(input.release());
}

#[test]
fn board_key_names_capitalized() {
    assert_eq!(board_key_name(65), Some("A"));
    assert_eq!(board_key_name(keycode::KEY_SPACE), Some("Space"));
    assert_eq!(board_key_name(keycode::KEY_TAB), Some("Tabulation"));
    assert_eq!(board_key_name(keycode::KEY_LEFT_SHIFT), Some("L. Shift"));
    assert_eq!(board_key_name(keycode::KEY_KP_ENTER), Some("Pad Enter"));
    assert_eq!(board_key_name(keycode::KEY_CAPS_LOCK), Some("Case Lock"));
    assert_eq!(board_key_name(keycode::KEY_NULL), Some("Null"));
    assert_eq!(board_key_name(keycode::KEY_KB_MENU), Some("Menu"));
    assert_eq!(board_key_name(1), None);
    assert_eq!(board_key_name(1000), None);
}

#[test]
fn label_shows_only_keyboard_names() {
    assert_eq!(Input::new_board(keycode::KEY_F12).label(), "F12");
    assert_eq!(Input::new_mouse(keycode::MOUSE_BUTTON_LEFT).label(), "");
    assert_eq!(Input::new_pad(keycode::GAMEPAD_BUTTON_MIDDLE).label(), "");
    assert_eq!(Input::new_board(2).label(), "");
}

#[test]
fn user_default_bindings() {
    let input = UserInput::default();
    assert_eq!(input.move_x_a.key(), keycode::KEY_W);
    assert_eq!(input.move_x_b.key(), keycode::KEY_S);
    assert_eq!(input.move_z_a.key(), keycode::KEY_A);
    assert_eq!(input.move_z_b.key(), keycode::KEY_D);
    assert_eq!(input.jump.key(), keycode::KEY_SPACE);
    assert!(matches!(input.push, Input::Mouse { key: 0, press: false, release: false }));
    assert!(matches!(input.pull, Input::Mouse { key: 1, press: false, release: false }));
    assert!(matches!(input.info, Input::Board { key: 258, press: false, release: false }));
}

#[test]
fn first_pressed_button_in_code_order() {
    let none = vec![false; 7];
    assert_eq!(Input::get_mouse_pressed(&none), None);
    let mut some = vec![false; 7];
    some[4] = true;
    some[2] = true;
    assert_eq!(Input::get_mouse_pressed(&some), Some(2));
    let mut pad = vec![false; 18];
    pad[17] = true;
    assert_eq!(Input::get_gamepad_button_pressed(&pad), Some(17));
    pad[0] = true;
    assert_eq!(Input::get_gamepad_button_pressed(&pad), Some(0));
}

#[test]
fn glyph_and_locale_names() {
    assert_eq!(GlyphKind::default(), GlyphKind::PlayStation);
    assert_eq!(GlyphKind::PlayStation.folder_name(), "play_station");
    assert_eq!(GlyphKind::Xbox.folder_name(), "xbox");
    assert_eq!(GlyphKind::Nintendo.folder_name(), "nintendo");
    assert_eq!(GlyphKind::PlayStation.label(), "PlayStation");
    assert_eq!(GlyphKind::Nintendo.label(), "Nintendo");
    assert_eq!(LocaleKind::English.label(), "English");
    assert_eq!(LocaleKind::Spanish.label(), "Spanish");
}

#[test]
fn setting_names_lowercase() {
    assert_eq!(setting::setting_key_name(65), Some("a"));
    assert_eq!(setting::setting_key_name(keycode::KEY_SPACE), Some("space"));
    assert_eq!(setting::setting_key_name(keycode::KEY_NULL), Some("null"));
    assert_eq!(setting::setting_key_name(keycode::KEY_RIGHT_ALT), Some("r. alternate"));
    assert_eq!(setting::setting_key_name(3), None);
    assert_eq!(setting::setting_mouse_name(keycode::MOUSE_BUTTON_LEFT), Some("mouse l."));
    assert_eq!(setting::setting_mouse_name(keycode::MOUSE_BUTTON_EXTRA), Some("mouse extra"));
    assert_eq!(setting::setting_mouse_name(7), None);
    assert_eq!(setting::Input::new_board(keycode::KEY_Z).label(), "z");
    assert_eq!(setting::Input::new_mouse(keycode::MOUSE_BUTTON_BACK).label(), "mouse back");
    assert_eq!(setting::Input::new_mouse(9).label(), "");
}

#[test]
fn setting_input_latches() {
    let mut input = setting::Input::new_mouse(keycode::MOUSE_BUTTON_SIDE);
    input.poll(true, true);
    assert!(input.press());
    assert!(input.release());
    input.wipe();
    assert!(!input.press());
    assert!(!input.release());
    assert_eq!(input.key(), keycode::MOUSE_BUTTON_SIDE);
    let mut pressed = vec![false; 7];
    pressed[6] = true;
    assert_eq!(setting::Input::get_mouse_pressed(&pressed), Some(6));
}

#[test]
fn setting_default_bindings() {
    let input = SettingInput::default();
    assert_eq!(input.move_x_a.key(), keycode::KEY_W);
    assert_eq!(input.move_x_b.key(), keycode::KEY_S);
    assert_eq!(input.move_z_a.key(), keycode::KEY_A);
    assert_eq!(input.move_z_b.key(), keycode::KEY_D);
    assert_eq!(input.jump.key(), keycode::KEY_SPACE);
    assert!(matches!(input.duck, setting::Input::Mouse { key: 4, .. }));
    assert!(matches!(input.fire_a, setting::Input::Mouse { key: 0, .. }));
    assert!(matches!(input.fire_b, setting::Input::Mouse { key: 1, .. }));
}
