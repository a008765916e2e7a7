//! The older settings file's input bindings: keyboard keys and mouse
//! buttons only, with the lowercase names under which the settings menu
//! shows them.

use vstd::prelude::*;

use crate::keycode;
use crate::keycode::is_board_code;
use crate::keycode::is_mouse_code;

verus! {

/// One bound input of the settings: a keyboard key or a mouse button,
/// given by its raylib code, with the latched press and release events.
#[derive(Copy, Clone, Debug)]
pub enum Input {
    Board { key: u32, press: bool, release: bool },
    Mouse { key: u32, press: bool, release: bool },
}

impl Input {
    /// The raylib code of the bound key or button.
    pub open spec fn code(self) -> u32 {
        match self {
            Input::Board { key, .. } => key,
            Input::Mouse { key, .. } => key,
        }
    }

    /// Whether a press has been latched since the last wipe.
    pub open spec fn pressed(self) -> bool {
        match self {
            Input::Board { press, .. } => press,
            Input::Mouse { press, .. } => press,
        }
    }

    /// Whether a release has been latched since the last wipe.
    pub open spec fn released(self) -> bool {
        match self {
            Input::Board { release, .. } => release,
            Input::Mouse { release, .. } => release,
        }
    }

    /// Whether two inputs are bound to the same device kind.
    pub open spec fn same_device(self, other: Input) -> bool {
        ||| (self is Board && other is Board)
        ||| (self is Mouse && other is Mouse)
    }

    /// A keyboard binding with no latched event.
    pub fn new_board(key: u32) -> (input: Input)
        ensures
            input == (Input::Board { key, press: false, release: false }),
    {
        Input::Board { key, press: false, release: false }
    }

    /// A mouse binding with no latched event.
    pub fn new_mouse(key: u32) -> (input: Input)
        ensures
            input == (Input::Mouse { key, press: false, release: false }),
    {
        Input::Mouse { key, press: false, release: false }
    }

    /// The mouse button that went down this frame, the first in code order:
    /// `pressed[c]` says whether the button of code `c` did.
    pub fn get_mouse_pressed(pressed: &Vec<bool>) -> (button: Option<u32>)
        requires
            pressed@.len() == keycode::MOUSE_BUTTON_COUNT,
        ensures
            match button {
                Some(c) => c < pressed@.len() && pressed@[c as int] && forall|k: int| 0 <= k < c ==> !#[trigger] pressed@[k],
                None => forall|k: int| 0 <= k < pressed@.len() ==> !#[trigger] pressed@[k],
            },
    {
        keycode::first_pressed(pressed)
    }

    /// Latches the events of this frame: `pressed` and `released` say whether
    /// the bound key or button went down or up this frame. A latch is only
    /// ever set here, never cleared.
    pub fn poll(&mut self, pressed: bool, released: bool)
        ensures
            final(self).same_device(*old(self)),
            final(self).code() == old(self).code(),
            final(self).pressed() == (old(self).pressed() || pressed),
            final(self).released() == (old(self).released() || released),
    {
        match self {
            Input::Board { press, release, .. } => {
                if pressed {
                    *press = true;
                }
                if released {
                    *release = true;
                }
            },
            Input::Mouse { press, release, .. } => {
                if pressed {
                    *press = true;
                }
                if released {
                    *release = true;
                }
            },
        }
    }

    /// Clears both latches, keeping the binding.
    pub fn wipe(&mut self)
        ensures
            final(self).same_device(*old(self)),
            final(self).code() == old(self).code(),
            !final(self).pressed(),
            !final(self).released(),
    {
        match self {
            Input::Board { press, release, .. } => {
                *press = false;
                *release = false;
            },
            Input::Mouse { press, release, .. } => {
                *press = false;
                *release = false;
            },
        }
    }

    /// Whether a press has been latched.
    pub fn press(&self) -> (pressed: bool)
        ensures
            pressed == self.pressed(),
    {
        match self {
            Input::Board { press, .. } => *press,
            Input::Mouse { press, .. } => *press,
        }
    }

    /// Whether a release has been latched.
    pub fn release(&mut self) -> (released: bool)
        ensures
            *final(self) == *old(self),
            released == old(self).released(),
    {
        match self {
            Input::Board { release, .. } => *release,
            Input::Mouse { release, .. } => *release,
        }
    }

    /// The raylib code of the bound key or button.
    pub fn key(&self) -> (code: u32)
        ensures
            code == self.code(),
    {
        match self {
            Input::Board { key, .. } => *key,
            Input::Mouse { key, .. } => *key,
        }
    }

    /// The text shown for the binding: the key's or the button's name when
    /// raylib knows the code, the empty text otherwise.
    pub fn label(&self) -> (text: &'static str)
        ensures
            (self is Board && is_board_code(self.code())) ==> text@ == setting_key_label(self.code()),
            (self is Mouse && is_mouse_code(self.code())) ==> text@ == setting_mouse_label(self.code()),
            !((self is Board && is_board_code(self.code())) || (self is Mouse && is_mouse_code(self.code())))
                ==> text@ == ""@,
    {
        let name = match self {
            Input::Board { key, .. } => setting_key_name(*key),
            Input::Mouse { key, .. } => setting_mouse_name(*key),
        };
        match name {
            Some(name) => name,
            None => "",
        }
    }
}

/// The input bindings of the settings.
pub struct SettingInput {
    pub move_x_a: Input,
    pub move_x_b: Input,
    pub move_z_a: Input,
    pub move_z_b: Input,
    pub jump: Input,
    pub duck: Input,
    pub fire_a: Input,
    pub fire_b: Input,
}

impl Default for SettingInput {
    /// The bindings the settings start with: W and S to walk forward and
    /// back, A and D to the sides, space to jump, the extra mouse button to
    /// duck, the left and right mouse buttons to fire.
    fn default() -> (input: Self)
        ensures
            input.move_x_a == (Input::Board { key: keycode::KEY_W, press: false, release: false }),
            input.move_x_b == (Input::Board { key: keycode::KEY_S, press: false, release: false }),
            input.move_z_a == (Input::Board { key: keycode::KEY_A, press: false, release: false }),
            input.move_z_b == (Input::Board { key: keycode::KEY_D, press: false, release: false }),
            input.jump == (Input::Board { key: keycode::KEY_SPACE, press: false, release: false }),
            input.duck == (Input::Mouse { key: keycode::MOUSE_BUTTON_EXTRA, press: false, release: false }),
            input.fire_a == (Input::Mouse { key: keycode::MOUSE_BUTTON_LEFT, press: false, release: false }),
            input.fire_b == (Input::Mouse { key: keycode::MOUSE_BUTTON_RIGHT, press: false, release: false }),
    {
        SettingInput {
            move_x_a: Input::new_board(keycode::KEY_W),
            move_x_b: Input::new_board(keycode::KEY_S),
            move_z_a: Input::new_board(keycode::KEY_A),
            move_z_b: Input::new_board(keycode::KEY_D),
            jump: Input::new_board(keycode::KEY_SPACE),
            duck: Input::new_mouse(keycode::MOUSE_BUTTON_EXTRA),
            fire_a: Input::new_mouse(keycode::MOUSE_BUTTON_LEFT),
            fire_b: Input::new_mouse(keycode::MOUSE_BUTTON_RIGHT),
        }
    }
}

/// The name under which the settings menu shows a keyboard key.
pub open spec fn setting_key_label(code: u32) -> Seq<char> {
    match code {
        keycode::KEY_NULL => "null"@,
        keycode::KEY_APOSTROPHE => "'"@,
        keycode::KEY_COMMA => ","@,
        keycode::KEY_MINUS => "-"@,
        keycode::KEY_PERIOD => "."@,
        keycode::KEY_SLASH => "/"@,
        keycode::KEY_ZERO => "0"@,
        keycode::KEY_ONE => "1"@,
        keycode::KEY_TWO => "2"@,
        keycode::KEY_THREE => "3"@,
        keycode::KEY_FOUR => "4"@,
        keycode::KEY_FIVE => "5"@,
        keycode::KEY_SIX => "6"@,
        keycode::KEY_SEVEN => "7"@,
        keycode::KEY_EIGHT => "8"@,
        keycode::KEY_NINE => "9"@,
        keycode::KEY_SEMICOLON => ";"@,
        keycode::KEY_EQUAL => "="@,
        keycode::KEY_A => "a"@,
        keycode::KEY_B => "b"@,
        keycode::KEY_C => "c"@,
        keycode::KEY_D => "d"@,
        keycode::KEY_E => "e"@,
        keycode::KEY_F => "f"@,
        keycode::KEY_G => "g"@,
        keycode::KEY_H => "h"@,
        keycode::KEY_I => "i"@,
        keycode::KEY_J => "j"@,
        keycode::KEY_K => "k"@,
        keycode::KEY_L => "l"@,
        keycode::KEY_M => "m"@,
        keycode::KEY_N => "n"@,
        keycode::KEY_O => "o"@,
        keycode::KEY_P => "p"@,
        keycode::KEY_Q => "q"@,
        keycode::KEY_R => "r"@,
        keycode::KEY_S => "s"@,
        keycode::KEY_T => "t"@,
        keycode::KEY_U => "u"@,
        keycode::KEY_V => "v"@,
        keycode::KEY_W => "w"@,
        keycode::KEY_X => "x"@,
        keycode::KEY_Y => "y"@,
        keycode::KEY_Z => "z"@,
        keycode::KEY_LEFT_BRACKET => "{"@,
        keycode::KEY_BACKSLASH => "\\"@,
        keycode::KEY_RIGHT_BRACKET => "}"@,
        keycode::KEY_GRAVE => "`"@,
        keycode::KEY_SPACE => "space"@,
        keycode::KEY_ESCAPE => "escape"@,
        keycode::KEY_ENTER => "enter"@,
        keycode::KEY_TAB => "tabulation"@,
        keycode::KEY_BACKSPACE => "backspace"@,
        keycode::KEY_INSERT => "insert"@,
        keycode::KEY_DELETE => "delete"@,
        keycode::KEY_RIGHT => "right"@,
        keycode::KEY_LEFT => "left"@,
        keycode::KEY_DOWN => "down"@,
        keycode::KEY_UP => "up"@,
        keycode::KEY_PAGE_UP => "page up"@,
        keycode::KEY_PAGE_DOWN => "page down"@,
        keycode::KEY_HOME => "home"@,
        keycode::KEY_END => "end"@,
        keycode::KEY_CAPS_LOCK => "case lock"@,
        keycode::KEY_SCROLL_LOCK => "scroll lock"@,
        keycode::KEY_NUM_LOCK => "number lock"@,
        keycode::KEY_PRINT_SCREEN => "print screen"@,
        keycode::KEY_PAUSE => "pause"@,
        keycode::KEY_F1 => "f1"@,
        keycode::KEY_F2 => "f2"@,
        keycode::KEY_F3 => "f3"@,
        keycode::KEY_F4 => "f4"@,
        keycode::KEY_F5 => "f5"@,
        keycode::KEY_F6 => "f6"@,
        keycode::KEY_F7 => "f7"@,
        keycode::KEY_F8 => "f8"@,
        keycode::KEY_F9 => "f9"@,
        keycode::KEY_F10 => "f10"@,
        keycode::KEY_F11 => "f11"@,
        keycode::KEY_F12 => "f12"@,
        keycode::KEY_LEFT_SHIFT => "l. shift"@,
        keycode::KEY_LEFT_CONTROL => "l. control"@,
        keycode::KEY_LEFT_ALT => "l. alternate"@,
        keycode::KEY_LEFT_SUPER => "l. super"@,
        keycode::KEY_RIGHT_SHIFT => "r. shift"@,
        keycode::KEY_RIGHT_CONTROL => "r. control"@,
        keycode::KEY_RIGHT_ALT => "r. alternate"@,
        keycode::KEY_RIGHT_SUPER => "r. super"@,
        keycode::KEY_KB_MENU => "menu"@,
        keycode::KEY_KP_0 => "pad 0"@,
        keycode::KEY_KP_1 => "pad 1"@,
        keycode::KEY_KP_2 => "pad 2"@,
        keycode::KEY_KP_3 => "pad 3"@,
        keycode::KEY_KP_4 => "pad 4"@,
        keycode::KEY_KP_5 => "pad 5"@,
        keycode::KEY_KP_6 => "pad 6"@,
        keycode::KEY_KP_7 => "pad 7"@,
        keycode::KEY_KP_8 => "pad 8"@,
        keycode::KEY_KP_9 => "pad 9"@,
        keycode::KEY_KP_DECIMAL => "pad ."@,
        keycode::KEY_KP_DIVIDE => "pad /"@,
        keycode::KEY_KP_MULTIPLY => "pad *"@,
        keycode::KEY_KP_SUBTRACT => "pad -"@,
        keycode::KEY_KP_ADD => "pad +"@,
        keycode::KEY_KP_ENTER => "pad enter"@,
        keycode::KEY_KP_EQUAL => "pad ="@,
        keycode::KEY_BACK => "back"@,
        keycode::KEY_MENU => "menu"@,
        keycode::KEY_VOLUME_UP => "volume up"@,
        keycode::KEY_VOLUME_DOWN => "volume down"@,
        _ => Seq::empty(),
    }
}

/// The name under which the settings menu shows a mouse button.
pub open spec fn setting_mouse_label(code: u32) -> Seq<char> {
    match code {
        keycode::MOUSE_BUTTON_LEFT => "mouse l."@,
        keycode::MOUSE_BUTTON_RIGHT => "mouse r."@,
        keycode::MOUSE_BUTTON_MIDDLE => "mouse middle"@,
        keycode::MOUSE_BUTTON_SIDE => "mouse side"@,
        keycode::MOUSE_BUTTON_EXTRA => "mouse extra"@,
        keycode::MOUSE_BUTTON_FORWARD => "mouse forward"@,
        keycode::MOUSE_BUTTON_BACK => "mouse back"@,
        _ => Seq::empty(),
    }
}

/// The settings menu's name of a keyboard key; `None` when `code` names no key.
pub fn setting_key_name(code: u32) -> (name: Option<&'static str>)
    ensures
        name is Some <==> is_board_code(code),
        name matches Some(text) ==> text@ == setting_key_label(code),
{
    match code {
        keycode::KEY_NULL => Some("null"),
        keycode::KEY_APOSTROPHE => Some("'"),
        keycode::KEY_COMMA => Some(","),
        keycode::KEY_MINUS => Some("-"),
        keycode::KEY_PERIOD => Some("."),
        keycode::KEY_SLASH => Some("/"),
        keycode::KEY_ZERO => Some("0"),
        keycode::KEY_ONE => Some("1"),
        keycode::KEY_TWO => Some("2"),
        keycode::KEY_THREE => Some("3"),
        keycode::KEY_FOUR => Some("4"),
        keycode::KEY_FIVE => Some("5"),
        keycode::KEY_SIX => Some("6"),
        keycode::KEY_SEVEN => Some("7"),
        keycode::KEY_EIGHT => Some("8"),
        keycode::KEY_NINE => Some("9"),
        keycode::KEY_SEMICOLON => Some(";"),
        keycode::KEY_EQUAL => Some("="),
        keycode::KEY_A => Some("a"),
        keycode::KEY_B => Some("b"),
        keycode::KEY_C => Some("c"),
        keycode::KEY_D => Some("d"),
        keycode::KEY_E => Some("e"),
        keycode::KEY_F => Some("f"),
        keycode::KEY_G => Some("g"),
        keycode::KEY_H => Some("h"),
        keycode::KEY_I => Some("i"),
        keycode::KEY_J => Some("j"),
        keycode::KEY_K => Some("k"),
        keycode::KEY_L => Some("l"),
        keycode::KEY_M => Some("m"),
        keycode::KEY_N => Some("n"),
        keycode::KEY_O => Some("o"),
        keycode::KEY_P => Some("p"),
        keycode::KEY_Q => Some("q"),
        keycode::KEY_R => Some("r"),
        keycode::KEY_S => Some("s"),
        keycode::KEY_T => Some("t"),
        keycode::KEY_U => Some("u"),
        keycode::KEY_V => Some("v"),
        keycode::KEY_W => Some("w"),
        keycode::KEY_X => Some("x"),
        keycode::KEY_Y => Some("y"),
        keycode::KEY_Z => Some("z"),
        keycode::KEY_LEFT_BRACKET => Some("{"),
        keycode::KEY_BACKSLASH => Some("\\"),
        keycode::KEY_RIGHT_BRACKET => Some("}"),
        keycode::KEY_GRAVE => Some("`"),
        keycode::KEY_SPACE => Some("space"),
        keycode::KEY_ESCAPE => Some("escape"),
        keycode::KEY_ENTER => Some("enter"),
        keycode::KEY_TAB => Some("tabulation"),
        keycode::KEY_BACKSPACE => Some("backspace"),
        keycode::KEY_INSERT => Some("insert"),
        keycode::KEY_DELETE => Some("delete"),
        keycode::KEY_RIGHT => Some("right"),
        keycode::KEY_LEFT => Some("left"),
        keycode::KEY_DOWN => Some("down"),
        keycode::KEY_UP => Some("up"),
        keycode::KEY_PAGE_UP => Some("page up"),
        keycode::KEY_PAGE_DOWN => Some("page down"),
        keycode::KEY_HOME => Some("home"),
        keycode::KEY_END => Some("end"),
        keycode::KEY_CAPS_LOCK => Some("case lock"),
        keycode::KEY_SCROLL_LOCK => Some("scroll lock"),
        keycode::KEY_NUM_LOCK => Some("number lock"),
        keycode::KEY_PRINT_SCREEN => Some("print screen"),
        keycode::KEY_PAUSE => Some("pause"),
        keycode::KEY_F1 => Some("f1"),
        keycode::KEY_F2 => Some("f2"),
        keycode::KEY_F3 => Some("f3"),
        keycode::KEY_F4 => Some("f4"),
        keycode::KEY_F5 => Some("f5"),
        keycode::KEY_F6 => Some("f6"),
        keycode::KEY_F7 => Some("f7"),
        keycode::KEY_F8 => Some("f8"),
        keycode::KEY_F9 => Some("f9"),
        keycode::KEY_F10 => Some("f10"),
        keycode::KEY_F11 => Some("f11"),
        keycode::KEY_F12 => Some("f12"),
        keycode::KEY_LEFT_SHIFT => Some("l. shift"),
        keycode::KEY_LEFT_CONTROL => Some("l. control"),
        keycode::KEY_LEFT_ALT => Some("l. alternate"),
        keycode::KEY_LEFT_SUPER => Some("l. super"),
        keycode::KEY_RIGHT_SHIFT => Some("r. shift"),
        keycode::KEY_RIGHT_CONTROL => Some("r. control"),
        keycode::KEY_RIGHT_ALT => Some("r. alternate"),
        keycode::KEY_RIGHT_SUPER => Some("r. super"),
        keycode::KEY_KB_MENU => Some("menu"),
        keycode::KEY_KP_0 => Some("pad 0"),
        keycode::KEY_KP_1 => Some("pad 1"),
        keycode::KEY_KP_2 => Some("pad 2"),
        keycode::KEY_KP_3 => Some("pad 3"),
        keycode::KEY_KP_4 => Some("pad 4"),
        keycode::KEY_KP_5 => Some("pad 5"),
        keycode::KEY_KP_6 => Some("pad 6"),
        keycode::KEY_KP_7 => Some("pad 7"),
        keycode::KEY_KP_8 => Some("pad 8"),
        keycode::KEY_KP_9 => Some("pad 9"),
        keycode::KEY_KP_DECIMAL => Some("pad ."),
        keycode::KEY_KP_DIVIDE => Some("pad /"),
        keycode::KEY_KP_MULTIPLY => Some("pad *"),
        keycode::KEY_KP_SUBTRACT => Some("pad -"),
        keycode::KEY_KP_ADD => Some("pad +"),
        keycode::KEY_KP_ENTER => Some("pad enter"),
        keycode::KEY_KP_EQUAL => Some("pad ="),
        keycode::KEY_BACK => Some("back"),
        keycode::KEY_MENU => Some("menu"),
        keycode::KEY_VOLUME_UP => Some("volume up"),
        keycode::KEY_VOLUME_DOWN => Some("volume down"),
        _ => None,
    }
}

/// The settings menu's name of a mouse button; `None` when `code` names no
/// button.
pub fn setting_mouse_name(code: u32) -> (name: Option<&'static str>)
    ensures
        name is Some <==> is_mouse_code(code),
        name matches Some(text) ==> text@ == setting_mouse_label(code),
{
    match code {
        keycode::MOUSE_BUTTON_LEFT => Some("mouse l."),
        keycode::MOUSE_BUTTON_RIGHT => Some("mouse r."),
        keycode::MOUSE_BUTTON_MIDDLE => Some("mouse middle"),
        keycode::MOUSE_BUTTON_SIDE => Some("mouse side"),
        keycode::MOUSE_BUTTON_EXTRA => Some("mouse extra"),
        keycode::MOUSE_BUTTON_FORWARD => Some("mouse forward"),
        keycode::MOUSE_BUTTON_BACK => Some("mouse back"),
        _ => None,
    }
}

/// The name the settings menu shows for each keyboard key, key by key, in
/// lowercase (the left arrow "left", the right arrow "right").
pub proof fn setting_key_names()
    ensures
        setting_key_label(keycode::KEY_NULL) == "null"@,
        setting_key_label(keycode::KEY_APOSTROPHE) == "'"@,
        setting_key_label(keycode::KEY_COMMA) == ","@,
        setting_key_label(keycode::KEY_MINUS) == "-"@,
        setting_key_label(keycode::KEY_PERIOD) == "."@,
        setting_key_label(keycode::KEY_SLASH) == "/"@,
        setting_key_label(keycode::KEY_ZERO) == "0"@,
        setting_key_label(keycode::KEY_ONE) == "1"@,
        setting_key_label(keycode::KEY_TWO) == "2"@,
        setting_key_label(keycode::KEY_THREE) == "3"@,
        setting_key_label(keycode::KEY_FOUR) == "4"@,
        setting_key_label(keycode::KEY_FIVE) == "5"@,
        setting_key_label(keycode::KEY_SIX) == "6"@,
        setting_key_label(keycode::KEY_SEVEN) == "7"@,
        setting_key_label(keycode::KEY_EIGHT) == "8"@,
        setting_key_label(keycode::KEY_NINE) == "9"@,
        setting_key_label(keycode::KEY_SEMICOLON) == ";"@,
        setting_key_label(keycode::KEY_EQUAL) == "="@,
        setting_key_label(keycode::KEY_A) == "a"@,
        setting_key_label(keycode::KEY_B) == "b"@,
        setting_key_label(keycode::KEY_C) == "c"@,
        setting_key_label(keycode::KEY_D) == "d"@,
        setting_key_label(keycode::KEY_E) == "e"@,
        setting_key_label(keycode::KEY_F) == "f"@,
        setting_key_label(keycode::KEY_G) == "g"@,
        setting_key_label(keycode::KEY_H) == "h"@,
        setting_key_label(keycode::KEY_I) == "i"@,
        setting_key_label(keycode::KEY_J) == "j"@,
        setting_key_label(keycode::KEY_K) == "k"@,
        setting_key_label(keycode::KEY_L) == "l"@,
        setting_key_label(keycode::KEY_M) == "m"@,
        setting_key_label(keycode::KEY_N) == "n"@,
        setting_key_label(keycode::KEY_O) == "o"@,
        setting_key_label(keycode::KEY_P) == "p"@,
        setting_key_label(keycode::KEY_Q) == "q"@,
        setting_key_label(keycode::KEY_R) == "r"@,
        setting_key_label(keycode::KEY_S) == "s"@,
        setting_key_label(keycode::KEY_T) == "t"@,
        setting_key_label(keycode::KEY_U) == "u"@,
        setting_key_label(keycode::KEY_V) == "v"@,
        setting_key_label(keycode::KEY_W) == "w"@,
        setting_key_label(keycode::KEY_X) == "x"@,
        setting_key_label(keycode::KEY_Y) == "y"@,
        setting_key_label(keycode::KEY_Z) == "z"@,
        setting_key_label(keycode::KEY_LEFT_BRACKET) == "{"@,
        setting_key_label(keycode::KEY_BACKSLASH) == "\\"@,
        setting_key_label(keycode::KEY_RIGHT_BRACKET) == "}"@,
        setting_key_label(keycode::KEY_GRAVE) == "`"@,
        setting_key_label(keycode::KEY_SPACE) == "space"@,
        setting_key_label(keycode::KEY_ESCAPE) == "escape"@,
        setting_key_label(keycode::KEY_ENTER) == "enter"@,
        setting_key_label(keycode::KEY_TAB) == "tabulation"@,
        setting_key_label(keycode::KEY_BACKSPACE) == "backspace"@,
        setting_key_label(keycode::KEY_INSERT) == "insert"@,
        setting_key_label(keycode::KEY_DELETE) == "delete"@,
        setting_key_label(keycode::KEY_RIGHT) == "right"@,
        setting_key_label(keycode::KEY_LEFT) == "left"@,
        setting_key_label(keycode::KEY_DOWN) == "down"@,
        setting_key_label(keycode::KEY_UP) == "up"@,
        setting_key_label(keycode::KEY_PAGE_UP) == "page up"@,
        setting_key_label(keycode::KEY_PAGE_DOWN) == "page down"@,
        setting_key_label(keycode::KEY_HOME) == "home"@,
        setting_key_label(keycode::KEY_END) == "end"@,
        setting_key_label(keycode::KEY_CAPS_LOCK) == "case lock"@,
        setting_key_label(keycode::KEY_SCROLL_LOCK) == "scroll lock"@,
        setting_key_label(keycode::KEY_NUM_LOCK) == "number lock"@,
        setting_key_label(keycode::KEY_PRINT_SCREEN) == "print screen"@,
        setting_key_label(keycode::KEY_PAUSE) == "pause"@,
        setting_key_label(keycode::KEY_F1) == "f1"@,
        setting_key_label(keycode::KEY_F2) == "f2"@,
        setting_key_label(keycode::KEY_F3) == "f3"@,
        setting_key_label(keycode::KEY_F4) == "f4"@,
        setting_key_label(keycode::KEY_F5) == "f5"@,
        setting_key_label(keycode::KEY_F6) == "f6"@,
        setting_key_label(keycode::KEY_F7) == "f7"@,
        setting_key_label(keycode::KEY_F8) == "f8"@,
        setting_key_label(keycode::KEY_F9) == "f9"@,
        setting_key_label(keycode::KEY_F10) == "f10"@,
        setting_key_label(keycode::KEY_F11) == "f11"@,
        setting_key_label(keycode::KEY_F12) == "f12"@,
        setting_key_label(keycode::KEY_LEFT_SHIFT) == "l. shift"@,
        setting_key_label(keycode::KEY_LEFT_CONTROL) == "l. control"@,
        setting_key_label(keycode::KEY_LEFT_ALT) == "l. alternate"@,
        setting_key_label(keycode::KEY_LEFT_SUPER) == "l. super"@,
        setting_key_label(keycode::KEY_RIGHT_SHIFT) == "r. shift"@,
        setting_key_label(keycode::KEY_RIGHT_CONTROL) == "r. control"@,
        setting_key_label(keycode::KEY_RIGHT_ALT) == "r. alternate"@,
        setting_key_label(keycode::KEY_RIGHT_SUPER) == "r. super"@,
        setting_key_label(keycode::KEY_KB_MENU) == "menu"@,
        setting_key_label(keycode::KEY_KP_0) == "pad 0"@,
        setting_key_label(keycode::KEY_KP_1) == "pad 1"@,
        setting_key_label(keycode::KEY_KP_2) == "pad 2"@,
        setting_key_label(keycode::KEY_KP_3) == "pad 3"@,
        setting_key_label(keycode::KEY_KP_4) == "pad 4"@,
        setting_key_label(keycode::KEY_KP_5) == "pad 5"@,
        setting_key_label(keycode::KEY_KP_6) == "pad 6"@,
        setting_key_label(keycode::KEY_KP_7) == "pad 7"@,
        setting_key_label(keycode::KEY_KP_8) == "pad 8"@,
        setting_key_label(keycode::KEY_KP_9) == "pad 9"@,
        setting_key_label(keycode::KEY_KP_DECIMAL) == "pad ."@,
        setting_key_label(keycode::KEY_KP_DIVIDE) == "pad /"@,
        setting_key_label(keycode::KEY_KP_MULTIPLY) == "pad *"@,
        setting_key_label(keycode::KEY_KP_SUBTRACT) == "pad -"@,
        setting_key_label(keycode::KEY_KP_ADD) == "pad +"@,
        setting_key_label(keycode::KEY_KP_ENTER) == "pad enter"@,
        setting_key_label(keycode::KEY_KP_EQUAL) == "pad ="@,
        setting_key_label(keycode::KEY_BACK) == "back"@,
        setting_key_label(keycode::KEY_MENU) == "menu"@,
        setting_key_label(keycode::KEY_VOLUME_UP) == "volume up"@,
        setting_key_label(keycode::KEY_VOLUME_DOWN) == "volume down"@,
{
}

/// The name the settings menu shows for each mouse button.
pub proof fn setting_mouse_names()
    ensures
        setting_mouse_label(keycode::MOUSE_BUTTON_LEFT) == "mouse l."@,
        setting_mouse_label(keycode::MOUSE_BUTTON_RIGHT) == "mouse r."@,
        setting_mouse_label(keycode::MOUSE_BUTTON_MIDDLE) == "mouse middle"@,
        setting_mouse_label(keycode::MOUSE_BUTTON_SIDE) == "mouse side"@,
        setting_mouse_label(keycode::MOUSE_BUTTON_EXTRA) == "mouse extra"@,
        setting_mouse_label(keycode::MOUSE_BUTTON_FORWARD) == "mouse forward"@,
        setting_mouse_label(keycode::MOUSE_BUTTON_BACK) == "mouse back"@,
{
}

} // verus!
