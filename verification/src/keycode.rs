//! The codes by which raylib names keyboard keys, mouse buttons and gamepad
//! buttons; an input binding stores one of them.

use vstd::prelude::*;

verus! {

pub const KEY_NULL: u32 = 0;
pub const KEY_APOSTROPHE: u32 = 39;
pub const KEY_COMMA: u32 = 44;
pub const KEY_MINUS: u32 = 45;
pub const KEY_PERIOD: u32 = 46;
pub const KEY_SLASH: u32 = 47;
pub const KEY_ZERO: u32 = 48;
pub const KEY_ONE: u32 = 49;
pub const KEY_TWO: u32 = 50;
pub const KEY_THREE: u32 = 51;
pub const KEY_FOUR: u32 = 52;
pub const KEY_FIVE: u32 = 53;
pub const KEY_SIX: u32 = 54;
pub const KEY_SEVEN: u32 = 55;
pub const KEY_EIGHT: u32 = 56;
pub const KEY_NINE: u32 = 57;
pub const KEY_SEMICOLON: u32 = 59;
pub const KEY_EQUAL: u32 = 61;
pub const KEY_A: u32 = 65;
pub const KEY_B: u32 = 66;
pub const KEY_C: u32 = 67;
pub const KEY_D: u32 = 68;
pub const KEY_E: u32 = 69;
pub const KEY_F: u32 = 70;
pub const KEY_G: u32 = 71;
pub const KEY_H: u32 = 72;
pub const KEY_I: u32 = 73;
pub const KEY_J: u32 = 74;
pub const KEY_K: u32 = 75;
pub const KEY_L: u32 = 76;
pub const KEY_M: u32 = 77;
pub const KEY_N: u32 = 78;
pub const KEY_O: u32 = 79;
pub const KEY_P: u32 = 80;
pub const KEY_Q: u32 = 81;
pub const KEY_R: u32 = 82;
pub const KEY_S: u32 = 83;
pub const KEY_T: u32 = 84;
pub const KEY_U: u32 = 85;
pub const KEY_V: u32 = 86;
pub const KEY_W: u32 = 87;
pub const KEY_X: u32 = 88;
pub const KEY_Y: u32 = 89;
pub const KEY_Z: u32 = 90;
pub const KEY_LEFT_BRACKET: u32 = 91;
pub const KEY_BACKSLASH: u32 = 92;
pub const KEY_RIGHT_BRACKET: u32 = 93;
pub const KEY_GRAVE: u32 = 96;
pub const KEY_SPACE: u32 = 32;
pub const KEY_ESCAPE: u32 = 256;
pub const KEY_ENTER: u32 = 257;
pub const KEY_TAB: u32 = 258;
pub const KEY_BACKSPACE: u32 = 259;
pub const KEY_INSERT: u32 = 260;
pub const KEY_DELETE: u32 = 261;
pub const KEY_RIGHT: u32 = 262;
pub const KEY_LEFT: u32 = 263;
pub const KEY_DOWN: u32 = 264;
pub const KEY_UP: u32 = 265;
pub const KEY_PAGE_UP: u32 = 266;
pub const KEY_PAGE_DOWN: u32 = 267;
pub const KEY_HOME: u32 = 268;
pub const KEY_END: u32 = 269;
pub const KEY_CAPS_LOCK: u32 = 280;
pub const KEY_SCROLL_LOCK: u32 = 281;
pub const KEY_NUM_LOCK: u32 = 282;
pub const KEY_PRINT_SCREEN: u32 = 283;
pub const KEY_PAUSE: u32 = 284;
pub const KEY_F1: u32 = 290;
pub const KEY_F2: u32 = 291;
pub const KEY_F3: u32 = 292;
pub const KEY_F4: u32 = 293;
pub const KEY_F5: u32 = 294;
pub const KEY_F6: u32 = 295;
pub const KEY_F7: u32 = 296;
pub const KEY_F8: u32 = 297;
pub const KEY_F9: u32 = 298;
pub const KEY_F10: u32 = 299;
pub const KEY_F11: u32 = 300;
pub const KEY_F12: u32 = 301;
pub const KEY_LEFT_SHIFT: u32 = 340;
pub const KEY_LEFT_CONTROL: u32 = 341;
pub const KEY_LEFT_ALT: u32 = 342;
pub const KEY_LEFT_SUPER: u32 = 343;
pub const KEY_RIGHT_SHIFT: u32 = 344;
pub const KEY_RIGHT_CONTROL: u32 = 345;
pub const KEY_RIGHT_ALT: u32 = 346;
pub const KEY_RIGHT_SUPER: u32 = 347;
pub const KEY_KB_MENU: u32 = 348;
pub const KEY_KP_0: u32 = 320;
pub const KEY_KP_1: u32 = 321;
pub const KEY_KP_2: u32 = 322;
pub const KEY_KP_3: u32 = 323;
pub const KEY_KP_4: u32 = 324;
pub const KEY_KP_5: u32 = 325;
pub const KEY_KP_6: u32 = 326;
pub const KEY_KP_7: u32 = 327;
pub const KEY_KP_8: u32 = 328;
pub const KEY_KP_9: u32 = 329;
pub const KEY_KP_DECIMAL: u32 = 330;
pub const KEY_KP_DIVIDE: u32 = 331;
pub const KEY_KP_MULTIPLY: u32 = 332;
pub const KEY_KP_SUBTRACT: u32 = 333;
pub const KEY_KP_ADD: u32 = 334;
pub const KEY_KP_ENTER: u32 = 335;
pub const KEY_KP_EQUAL: u32 = 336;
pub const KEY_BACK: u32 = 4;
pub const KEY_MENU: u32 = 5;
pub const KEY_VOLUME_UP: u32 = 24;
pub const KEY_VOLUME_DOWN: u32 = 25;

pub const MOUSE_BUTTON_LEFT: u32 = 0;
pub const MOUSE_BUTTON_RIGHT: u32 = 1;
pub const MOUSE_BUTTON_MIDDLE: u32 = 2;
pub const MOUSE_BUTTON_SIDE: u32 = 3;
pub const MOUSE_BUTTON_EXTRA: u32 = 4;
pub const MOUSE_BUTTON_FORWARD: u32 = 5;
pub const MOUSE_BUTTON_BACK: u32 = 6;

pub const GAMEPAD_BUTTON_UNKNOWN: u32 = 0;
pub const GAMEPAD_BUTTON_LEFT_FACE_UP: u32 = 1;
pub const GAMEPAD_BUTTON_LEFT_FACE_RIGHT: u32 = 2;
pub const GAMEPAD_BUTTON_LEFT_FACE_DOWN: u32 = 3;
pub const GAMEPAD_BUTTON_LEFT_FACE_LEFT: u32 = 4;
pub const GAMEPAD_BUTTON_RIGHT_FACE_UP: u32 = 5;
pub const GAMEPAD_BUTTON_RIGHT_FACE_RIGHT: u32 = 6;
pub const GAMEPAD_BUTTON_RIGHT_FACE_DOWN: u32 = 7;
pub const GAMEPAD_BUTTON_RIGHT_FACE_LEFT: u32 = 8;
pub const GAMEPAD_BUTTON_LEFT_TRIGGER_1: u32 = 9;
pub const GAMEPAD_BUTTON_LEFT_TRIGGER_2: u32 = 10;
pub const GAMEPAD_BUTTON_RIGHT_TRIGGER_1: u32 = 11;
pub const GAMEPAD_BUTTON_RIGHT_TRIGGER_2: u32 = 12;
pub const GAMEPAD_BUTTON_MIDDLE_LEFT: u32 = 13;
pub const GAMEPAD_BUTTON_MIDDLE: u32 = 14;
pub const GAMEPAD_BUTTON_MIDDLE_RIGHT: u32 = 15;
pub const GAMEPAD_BUTTON_LEFT_THUMB: u32 = 16;
pub const GAMEPAD_BUTTON_RIGHT_THUMB: u32 = 17;

/// Whether `code` is one of raylib's keyboard key codes.
pub open spec fn is_board_code(code: u32) -> bool {
    ||| code == 0 || code == 4 || code == 5 || code == 24 || code == 25 || code == 32
    ||| code == 39 || (44 <= code <= 57) || code == 59 || code == 61
    ||| (65 <= code <= 93) || code == 96
    ||| (256 <= code <= 269) || (280 <= code <= 284) || (290 <= code <= 301)
    ||| (320 <= code <= 336) || (340 <= code <= 348)
}

/// Whether `code` is one of raylib's mouse button codes.
pub open spec fn is_mouse_code(code: u32) -> bool {
    code <= 6
}

/// Whether `code` is one of raylib's gamepad button codes.
pub open spec fn is_pad_code(code: u32) -> bool {
    code <= 17
}

/// How many mouse buttons raylib knows.
pub const MOUSE_BUTTON_COUNT: usize = 7;

/// How many gamepad buttons raylib knows, the unknown button included.
pub const GAMEPAD_BUTTON_COUNT: usize = 18;

/// The first code, in code order, whose button went down this frame:
/// `pressed[c]` says whether the button of code `c` did. `None` when none did.
pub fn first_pressed(pressed: &Vec<bool>) -> (code: Option<u32>)
    requires
        pressed@.len() <= u32::MAX,
    ensures
        match code {
            Some(c) => c < pressed@.len() && pressed@[c as int] && forall|k: int| 0 <= k < c ==> !#[trigger] pressed@[k],
            None => forall|k: int| 0 <= k < pressed@.len() ==> !#[trigger] pressed@[k],
        },
{
    let mut i: usize = 0;
    while i < pressed.len()
        invariant
            i <= pressed@.len() <= u32::MAX,
            forall|k: int| 0 <= k < i ==> !#[trigger] pressed@[k],
        decreases pressed@.len() - i,
    {
        if pressed[i] {
            return Some(i as u32);
        }
        i += 1;
    }
    None
}

} // verus!
