//! The user's input bindings, the latches that remember a press or a
//! release between two game ticks, and the choices of the setup menu.

use vstd::prelude::*;

use crate::keycode;
use crate::keycode::is_board_code;

verus! {

/// One bound input: a keyboard key, a mouse button or a gamepad button,
/// given by its raylib code, with the latched press and release events.
#[derive(Copy, Clone, Debug)]
pub enum Input {
    Board { key: u32, press: bool, release: bool },
    Mouse { key: u32, press: bool, release: bool },
    Pad { key: u32, press: bool, release: bool },
}

impl Input {
    /// The raylib code of the bound key or button.
    pub open spec fn code(self) -> u32 {
        match self {
            Input::Board { key, .. } => key,
            Input::Mouse { key, .. } => key,
            Input::Pad { key, .. } => key,
        }
    }

    /// Whether a press has been latched since the last wipe.
    pub open spec fn pressed(self) -> bool {
        match self {
            Input::Board { press, .. } => press,
            Input::Mouse { press, .. } => press,
            Input::Pad { press, .. } => press,
        }
    }

    /// Whether a release has been latched since the last wipe.
    pub open spec fn released(self) -> bool {
        match self {
            Input::Board { release, .. } => release,
            Input::Mouse { release, .. } => release,
            Input::Pad { release, .. } => release,
        }
    }

    /// Whether two inputs are bound to the same device kind.
    pub open spec fn same_device(self, other: Input) -> bool {
        ||| (self is Board && other is Board)
        ||| (self is Mouse && other is Mouse)
        ||| (self is Pad && other is Pad)
    }

    /// A keyboard binding with no latched event.
    pub fn new_board(key: u32) -> (input: Input)
        ensures
            input == (Input::Board { key, press: false, release: false }),
    {
        Input::Board { key, press: false, release: false }
    }

    /// A mouse binding with no latched event.
    pub fn new_mouse(key: u32) -> (input: Input)
        ensures
            input == (Input::Mouse { key, press: false, release: false }),
    {
        Input::Mouse { key, press: false, release: false }
    }

    /// A gamepad binding with no latched event.
    pub fn new_pad(key: u32) -> (input: Input)
        ensures
            input == (Input::Pad { key, press: false, release: false }),
    {
        Input::Pad { key, press: false, release: false }
    }

    /// The mouse button that went down this frame, the first in code order:
    /// `pressed[c]` says whether the button of code `c` did.
    pub fn get_mouse_pressed(pressed: &Vec<bool>) -> (button: Option<u32>)
        requires
            pressed@.len() == keycode::MOUSE_BUTTON_COUNT,
        ensures
            match button {
                Some(c) => c < pressed@.len() && pressed@[c as int] && forall|k: int| 0 <= k < c ==> !#[trigger] pressed@[k],
                None => forall|k: int| 0 <= k < pressed@.len() ==> !#[trigger] pressed@[k],
            },
    {
        keycode::first_pressed(pressed)
    }

    /// The gamepad button that went down this frame, the first in code
    /// order: `pressed[c]` says whether the button of code `c` did.
    pub fn get_gamepad_button_pressed(pressed: &Vec<bool>) -> (button: Option<u32>)
        requires
            pressed@.len() == keycode::GAMEPAD_BUTTON_COUNT,
        ensures
            match button {
                Some(c) => c < pressed@.len() && pressed@[c as int] && forall|k: int| 0 <= k < c ==> !#[trigger] pressed@[k],
                None => forall|k: int| 0 <= k < pressed@.len() ==> !#[trigger] pressed@[k],
            },
    {
        keycode::first_pressed(pressed)
    }

    /// Latches the events of this frame: `pressed` and `released` say whether
    /// the bound key or button went down or up this frame. A latch is only
    /// ever set here, never cleared.
    pub fn poll(&mut self, pressed: bool, released: bool)
        ensures
            final(self).same_device(*old(self)),
            final(self).code() == old(self).code(),
            final(self).pressed() == (old(self).pressed() || pressed),
            final(self).released() == (old(self).released() || released),
    {
        match self {
            Input::Board { press, release, .. } => {
                if pressed {
                    *press = true;
                }
                if released {
                    *release = true;
                }
            },
            Input::Mouse { press, release, .. } => {
                if pressed {
                    *press = true;
                }
                if released {
                    *release = true;
                }
            },
            Input::Pad { press, release, .. } => {
                if pressed {
                    *press = true;
                }
                if released {
                    *release = true;
                }
            },
        }
    }

    /// Clears both latches, keeping the binding.
    pub fn wipe(&mut self)
        ensures
            final(self).same_device(*old(self)),
            final(self).code() == old(self).code(),
            !final(self).pressed(),
            !final(self).released(),
    {
        match self {
            Input::Board { press, release, .. } => {
                *press = false;
                *release = false;
            },
            Input::Mouse { press, release, .. } => {
                *press = false;
                *release = false;
            },
            Input::Pad { press, release, .. } => {
                *press = false;
                *release = false;
            },
        }
    }

    /// Whether a press has been latched.
    pub fn press(&self) -> (pressed: bool)
        ensures
            pressed == self.pressed(),
    {
        match self {
            Input::Board { press, .. } => *press,
            Input::Mouse { press, .. } => *press,
            Input::Pad { press, .. } => *press,
        }
    }

    /// Whether a release has been latched.
    pub fn release(&mut self) -> (released: bool)
        ensures
            *final(self) == *old(self),
            released == old(self).released(),
    {
        match self {
            Input::Board { release, .. } => *release,
            Input::Mouse { release, .. } => *release,
            Input::Pad { release, .. } => *release,
        }
    }

    /// The raylib code of the bound key or button.
    pub fn key(&self) -> (code: u32)
        ensures
            code == self.code(),
    {
        match self {
            Input::Board { key, .. } => *key,
            Input::Mouse { key, .. } => *key,
            Input::Pad { key, .. } => *key,
        }
    }

    /// The text shown for the binding: the key's name for a keyboard key
    /// that raylib knows, the empty text otherwise (mouse and gamepad
    /// bindings are shown by a glyph instead).
    pub fn label(&self) -> (text: &'static str)
        ensures
            (self is Board && is_board_code(self.code())) ==> text@ == board_key_label(self.code()),
            !(self is Board && is_board_code(self.code())) ==> text@ == ""@,
    {
        match self {
            Input::Board { key, .. } => {
                match board_key_name(*key) {
                    Some(name) => name,
                    None => "",
                }
            },
            _ => "",
        }
    }
}

/// The user's input bindings.
pub struct UserInput {
    pub move_x_a: Input,
    pub move_x_b: Input,
    pub move_z_a: Input,
    pub move_z_b: Input,
    pub jump: Input,
    pub push: Input,
    pub pull: Input,
    pub info: Input,
}

impl Default for UserInput {
    /// The bindings a new user starts with: W and S to walk forward and
    /// back, A and D to the sides, space to jump, the left and right mouse
    /// buttons to push and pull, tab for information.
    fn default() -> (input: Self)
        ensures
            input.move_x_a == (Input::Board { key: keycode::KEY_W, press: false, release: false }),
            input.move_x_b == (Input::Board { key: keycode::KEY_S, press: false, release: false }),
            input.move_z_a == (Input::Board { key: keycode::KEY_A, press: false, release: false }),
            input.move_z_b == (Input::Board { key: keycode::KEY_D, press: false, release: false }),
            input.jump == (Input::Board { key: keycode::KEY_SPACE, press: false, release: false }),
            input.push == (Input::Mouse { key: keycode::MOUSE_BUTTON_LEFT, press: false, release: false }),
            input.pull == (Input::Mouse { key: keycode::MOUSE_BUTTON_RIGHT, press: false, release: false }),
            input.info == (Input::Board { key: keycode::KEY_TAB, press: false, release: false }),
    {
        UserInput {
            move_x_a: Input::new_board(keycode::KEY_W),
            move_x_b: Input::new_board(keycode::KEY_S),
            move_z_a: Input::new_board(keycode::KEY_A),
            move_z_b: Input::new_board(keycode::KEY_D),
            jump: Input::new_board(keycode::KEY_SPACE),
            push: Input::new_mouse(keycode::MOUSE_BUTTON_LEFT),
            pull: Input::new_mouse(keycode::MOUSE_BUTTON_RIGHT),
            info: Input::new_board(keycode::KEY_TAB),
        }
    }
}

/// The name under which the setup menu shows a keyboard key.
pub open spec fn board_key_label(code: u32) -> Seq<char> {
    match code {
        keycode::KEY_NULL => "Null"@,
        keycode::KEY_APOSTROPHE => "'"@,
        keycode::KEY_COMMA => ","@,
        keycode::KEY_MINUS => "-"@,
        keycode::KEY_PERIOD => "."@,
        keycode::KEY_SLASH => "/"@,
        keycode::KEY_ZERO => "0"@,
        keycode::KEY_ONE => "1"@,
        keycode::KEY_TWO => "2"@,
        keycode::KEY_THREE => "3"@,
        keycode::KEY_FOUR => "4"@,
        keycode::KEY_FIVE => "5"@,
        keycode::KEY_SIX => "6"@,
        keycode::KEY_SEVEN => "7"@,
        keycode::KEY_EIGHT => "8"@,
        keycode::KEY_NINE => "9"@,
        keycode::KEY_SEMICOLON => ";"@,
        keycode::KEY_EQUAL => "="@,
        keycode::KEY_A => "A"@,
        keycode::KEY_B => "B"@,
        keycode::KEY_C => "C"@,
        keycode::KEY_D => "D"@,
        keycode::KEY_E => "E"@,
        keycode::KEY_F => "F"@,
        keycode::KEY_G => "G"@,
        keycode::KEY_H => "H"@,
        keycode::KEY_I => "I"@,
        keycode::KEY_J => "J"@,
        keycode::KEY_K => "K"@,
        keycode::KEY_L => "L"@,
        keycode::KEY_M => "M"@,
        keycode::KEY_N => "N"@,
        keycode::KEY_O => "O"@,
        keycode::KEY_P => "P"@,
        keycode::KEY_Q => "Q"@,
        keycode::KEY_R => "R"@,
        keycode::KEY_S => "S"@,
        keycode::KEY_T => "T"@,
        keycode::KEY_U => "U"@,
        keycode::KEY_V => "V"@,
        keycode::KEY_W => "W"@,
        keycode::KEY_X => "X"@,
        keycode::KEY_Y => "Y"@,
        keycode::KEY_Z => "Z"@,
        keycode::KEY_LEFT_BRACKET => "{"@,
        keycode::KEY_BACKSLASH => "\\"@,
        keycode::KEY_RIGHT_BRACKET => "}"@,
        keycode::KEY_GRAVE => "`"@,
        keycode::KEY_SPACE => "Space"@,
        keycode::KEY_ESCAPE => "Escape"@,
        keycode::KEY_ENTER => "Enter"@,
        keycode::KEY_TAB => "Tabulation"@,
        keycode::KEY_BACKSPACE => "Backspace"@,
        keycode::KEY_INSERT => "Insert"@,
        keycode::KEY_DELETE => "Delete"@,
        keycode::KEY_RIGHT => "Right"@,
        keycode::KEY_LEFT => "Left"@,
        keycode::KEY_DOWN => "Down"@,
        keycode::KEY_UP => "Up"@,
        keycode::KEY_PAGE_UP => "Page Up"@,
        keycode::KEY_PAGE_DOWN => "Page Down"@,
        keycode::KEY_HOME => "Home"@,
        keycode::KEY_END => "End"@,
        keycode::KEY_CAPS_LOCK => "Case Lock"@,
        keycode::KEY_SCROLL_LOCK => "Scroll Lock"@,
        keycode::KEY_NUM_LOCK => "Number Lock"@,
        keycode::KEY_PRINT_SCREEN => "Print Screen"@,
        keycode::KEY_PAUSE => "Pause"@,
        keycode::KEY_F1 => "F1"@,
        keycode::KEY_F2 => "F2"@,
        keycode::KEY_F3 => "F3"@,
        keycode::KEY_F4 => "F4"@,
        keycode::KEY_F5 => "F5"@,
        keycode::KEY_F6 => "F6"@,
        keycode::KEY_F7 => "F7"@,
        keycode::KEY_F8 => "F8"@,
        keycode::KEY_F9 => "F9"@,
        keycode::KEY_F10 => "F10"@,
        keycode::KEY_F11 => "F11"@,
        keycode::KEY_F12 => "F12"@,
        keycode::KEY_LEFT_SHIFT => "L. Shift"@,
        keycode::KEY_LEFT_CONTROL => "L. Control"@,
        keycode::KEY_LEFT_ALT => "L. Alternate"@,
        keycode::KEY_LEFT_SUPER => "L. Super"@,
        keycode::KEY_RIGHT_SHIFT => "R. Shift"@,
        keycode::KEY_RIGHT_CONTROL => "R. Control"@,
        keycode::KEY_RIGHT_ALT => "R. Alternate"@,
        keycode::KEY_RIGHT_SUPER => "R. Super"@,
        keycode::KEY_KB_MENU => "Menu"@,
        keycode::KEY_KP_0 => "Pad 0"@,
        keycode::KEY_KP_1 => "Pad 1"@,
        keycode::KEY_KP_2 => "Pad 2"@,
        keycode::KEY_KP_3 => "Pad 3"@,
        keycode::KEY_KP_4 => "Pad 4"@,
        keycode::KEY_KP_5 => "Pad 5"@,
        keycode::KEY_KP_6 => "Pad 6"@,
        keycode::KEY_KP_7 => "Pad 7"@,
        keycode::KEY_KP_8 => "Pad 8"@,
        keycode::KEY_KP_9 => "Pad 9"@,
        keycode::KEY_KP_DECIMAL => "Pad ."@,
        keycode::KEY_KP_DIVIDE => "Pad /"@,
        keycode::KEY_KP_MULTIPLY => "Pad *"@,
        keycode::KEY_KP_SUBTRACT => "Pad -"@,
        keycode::KEY_KP_ADD => "Pad +"@,
        keycode::KEY_KP_ENTER => "Pad Enter"@,
        keycode::KEY_KP_EQUAL => "Pad ="@,
        keycode::KEY_BACK => "Back"@,
        keycode::KEY_MENU => "Menu"@,
        keycode::KEY_VOLUME_UP => "Volume Up"@,
        keycode::KEY_VOLUME_DOWN => "Volume Down"@,
        _ => Seq::empty(),
    }
}

/// The name under which the setup menu shows a keyboard key. `None` when `code` names no key.
pub fn board_key_name(code: u32) -> (name: Option<&'static str>)
    ensures
        name is Some <==> is_board_code(code),
        name matches Some(text) ==> text@ == board_key_label(code),
{
    match code {
        keycode::KEY_NULL => Some("Null"),
        keycode::KEY_APOSTROPHE => Some("'"),
        keycode::KEY_COMMA => Some(","),
        keycode::KEY_MINUS => Some("-"),
        keycode::KEY_PERIOD => Some("."),
        keycode::KEY_SLASH => Some("/"),
        keycode::KEY_ZERO => Some("0"),
        keycode::KEY_ONE => Some("1"),
        keycode::KEY_TWO => Some("2"),
        keycode::KEY_THREE => Some("3"),
        keycode::KEY_FOUR => Some("4"),
        keycode::KEY_FIVE => Some("5"),
        keycode::KEY_SIX => Some("6"),
        keycode::KEY_SEVEN => Some("7"),
        keycode::KEY_EIGHT => Some("8"),
        keycode::KEY_NINE => Some("9"),
        keycode::KEY_SEMICOLON => Some(";"),
        keycode::KEY_EQUAL => Some("="),
        keycode::KEY_A => Some("A"),
        keycode::KEY_B => Some("B"),
        keycode::KEY_C => Some("C"),
        keycode::KEY_D => Some("D"),
        keycode::KEY_E => Some("E"),
        keycode::KEY_F => Some("F"),
        keycode::KEY_G => Some("G"),
        keycode::KEY_H => Some("H"),
        keycode::KEY_I => Some("I"),
        keycode::KEY_J => Some("J"),
        keycode::KEY_K => Some("K"),
        keycode::KEY_L => Some("L"),
        keycode::KEY_M => Some("M"),
        keycode::KEY_N => Some("N"),
        keycode::KEY_O => Some("O"),
        keycode::KEY_P => Some("P"),
        keycode::KEY_Q => Some("Q"),
        keycode::KEY_R => Some("R"),
        keycode::KEY_S => Some("S"),
        keycode::KEY_T => Some("T"),
        keycode::KEY_U => Some("U"),
        keycode::KEY_V => Some("V"),
        keycode::KEY_W => Some("W"),
        keycode::KEY_X => Some("X"),
        keycode::KEY_Y => Some("Y"),
        keycode::KEY_Z => Some("Z"),
        keycode::KEY_LEFT_BRACKET => Some("{"),
        keycode::KEY_BACKSLASH => Some("\\"),
        keycode::KEY_RIGHT_BRACKET => Some("}"),
        keycode::KEY_GRAVE => Some("`"),
        keycode::KEY_SPACE => Some("Space"),
        keycode::KEY_ESCAPE => Some("Escape"),
        keycode::KEY_ENTER => Some("Enter"),
        keycode::KEY_TAB => Some("Tabulation"),
        keycode::KEY_BACKSPACE => Some("Backspace"),
        keycode::KEY_INSERT => Some("Insert"),
        keycode::KEY_DELETE => Some("Delete"),
        keycode::KEY_RIGHT => Some("Right"),
        keycode::KEY_LEFT => Some("Left"),
        keycode::KEY_DOWN => Some("Down"),
        keycode::KEY_UP => Some("Up"),
        keycode::KEY_PAGE_UP => Some("Page Up"),
        keycode::KEY_PAGE_DOWN => Some("Page Down"),
        keycode::KEY_HOME => Some("Home"),
        keycode::KEY_END => Some("End"),
        keycode::KEY_CAPS_LOCK => Some("Case Lock"),
        keycode::KEY_SCROLL_LOCK => Some("Scroll Lock"),
        keycode::KEY_NUM_LOCK => Some("Number Lock"),
        keycode::KEY_PRINT_SCREEN => Some("Print Screen"),
        keycode::KEY_PAUSE => Some("Pause"),
        keycode::KEY_F1 => Some("F1"),
        keycode::KEY_F2 => Some("F2"),
        keycode::KEY_F3 => Some("F3"),
        keycode::KEY_F4 => Some("F4"),
        keycode::KEY_F5 => Some("F5"),
        keycode::KEY_F6 => Some("F6"),
        keycode::KEY_F7 => Some("F7"),
        keycode::KEY_F8 => Some("F8"),
        keycode::KEY_F9 => Some("F9"),
        keycode::KEY_F10 => Some("F10"),
        keycode::KEY_F11 => Some("F11"),
        keycode::KEY_F12 => Some("F12"),
        keycode::KEY_LEFT_SHIFT => Some("L. Shift"),
        keycode::KEY_LEFT_CONTROL => Some("L. Control"),
        keycode::KEY_LEFT_ALT => Some("L. Alternate"),
        keycode::KEY_LEFT_SUPER => Some("L. Super"),
        keycode::KEY_RIGHT_SHIFT => Some("R. Shift"),
        keycode::KEY_RIGHT_CONTROL => Some("R. Control"),
        keycode::KEY_RIGHT_ALT => Some("R. Alternate"),
        keycode::KEY_RIGHT_SUPER => Some("R. Super"),
        keycode::KEY_KB_MENU => Some("Menu"),
        keycode::KEY_KP_0 => Some("Pad 0"),
        keycode::KEY_KP_1 => Some("Pad 1"),
        keycode::KEY_KP_2 => Some("Pad 2"),
        keycode::KEY_KP_3 => Some("Pad 3"),
        keycode::KEY_KP_4 => Some("Pad 4"),
        keycode::KEY_KP_5 => Some("Pad 5"),
        keycode::KEY_KP_6 => Some("Pad 6"),
        keycode::KEY_KP_7 => Some("Pad 7"),
        keycode::KEY_KP_8 => Some("Pad 8"),
        keycode::KEY_KP_9 => Some("Pad 9"),
        keycode::KEY_KP_DECIMAL => Some("Pad ."),
        keycode::KEY_KP_DIVIDE => Some("Pad /"),
        keycode::KEY_KP_MULTIPLY => Some("Pad *"),
        keycode::KEY_KP_SUBTRACT => Some("Pad -"),
        keycode::KEY_KP_ADD => Some("Pad +"),
        keycode::KEY_KP_ENTER => Some("Pad Enter"),
        keycode::KEY_KP_EQUAL => Some("Pad ="),
        keycode::KEY_BACK => Some("Back"),
        keycode::KEY_MENU => Some("Menu"),
        keycode::KEY_VOLUME_UP => Some("Volume Up"),
        keycode::KEY_VOLUME_DOWN => Some("Volume Down"),
        _ => None,
    }
}
/// The gamepad glyph set the interface shows.
#[derive(PartialEq, Eq, Structural, Copy, Clone, Debug, Default)]
pub enum GlyphKind {
    #[default]
    PlayStation,
    Xbox,
    Nintendo,
}

impl GlyphKind {
    /// The folder under `data/video/glyph/` that holds the glyph set.
    pub fn folder_name(&self) -> (name: &'static str)
        ensures
            *self == GlyphKind::PlayStation ==> name@ == "play_station"@,
            *self == GlyphKind::Xbox ==> name@ == "xbox"@,
            *self == GlyphKind::Nintendo ==> name@ == "nintendo"@,
    {
        match self {
            GlyphKind::PlayStation => "play_station",
            GlyphKind::Xbox => "xbox",
            GlyphKind::Nintendo => "nintendo",
        }
    }

    /// The name shown for the glyph set in the setup menu.
    pub fn label(&self) -> (name: &'static str)
        ensures
            *self == GlyphKind::PlayStation ==> name@ == "PlayStation"@,
            *self == GlyphKind::Xbox ==> name@ == "Xbox"@,
            *self == GlyphKind::Nintendo ==> name@ == "Nintendo"@,
    {
        match self {
            GlyphKind::PlayStation => "PlayStation",
            GlyphKind::Xbox => "Xbox",
            GlyphKind::Nintendo => "Nintendo",
        }
    }
}

/// The language of the menu.
#[derive(PartialEq, Eq, Structural, Copy, Clone, Debug)]
pub enum LocaleKind {
    English,
    Spanish,
}

impl LocaleKind {
    /// The name shown for the language in the setup menu.
    pub fn label(&self) -> (name: &'static str)
        ensures
            *self == LocaleKind::English ==> name@ == "English"@,
            *self == LocaleKind::Spanish ==> name@ == "Spanish"@,
    {
        match self {
            LocaleKind::English => "English",
            LocaleKind::Spanish => "Spanish",
        }
    }
}

/// The name the setup menu shows for each keyboard key, key by key:
/// each raylib key is called by its own name (the left arrow "Left", the
/// right arrow "Right", the letter keys by their capital letters).
pub proof fn board_key_names()
    ensures
        board_key_label(keycode::KEY_NULL) == "Null"@,
        board_key_label(keycode::KEY_APOSTROPHE) == "'"@,
        board_key_label(keycode::KEY_COMMA) == ","@,
        board_key_label(keycode::KEY_MINUS) == "-"@,
        board_key_label(keycode::KEY_PERIOD) == "."@,
        board_key_label(keycode::KEY_SLASH) == "/"@,
        board_key_label(keycode::KEY_ZERO) == "0"@,
        board_key_label(keycode::KEY_ONE) == "1"@,
        board_key_label(keycode::KEY_TWO) == "2"@,
        board_key_label(keycode::KEY_THREE) == "3"@,
        board_key_label(keycode::KEY_FOUR) == "4"@,
        board_key_label(keycode::KEY_FIVE) == "5"@,
        board_key_label(keycode::KEY_SIX) == "6"@,
        board_key_label(keycode::KEY_SEVEN) == "7"@,
        board_key_label(keycode::KEY_EIGHT) == "8"@,
        board_key_label(keycode::KEY_NINE) == "9"@,
        board_key_label(keycode::KEY_SEMICOLON) == ";"@,
        board_key_label(keycode::KEY_EQUAL) == "="@,
        board_key_label(keycode::KEY_A) == "A"@,
        board_key_label(keycode::KEY_B) == "B"@,
        board_key_label(keycode::KEY_C) == "C"@,
        board_key_label(keycode::KEY_D) == "D"@,
        board_key_label(keycode::KEY_E) == "E"@,
        board_key_label(keycode::KEY_F) == "F"@,
        board_key_label(keycode::KEY_G) == "G"@,
        board_key_label(keycode::KEY_H) == "H"@,
        board_key_label(keycode::KEY_I) == "I"@,
        board_key_label(keycode::KEY_J) == "J"@,
        board_key_label(keycode::KEY_K) == "K"@,
        board_key_label(keycode::KEY_L) == "L"@,
        board_key_label(keycode::KEY_M) == "M"@,
        board_key_label(keycode::KEY_N) == "N"@,
        board_key_label(keycode::KEY_O) == "O"@,
        board_key_label(keycode::KEY_P) == "P"@,
        board_key_label(keycode::KEY_Q) == "Q"@,
        board_key_label(keycode::KEY_R) == "R"@,
        board_key_label(keycode::KEY_S) == "S"@,
        board_key_label(keycode::KEY_T) == "T"@,
        board_key_label(keycode::KEY_U) == "U"@,
        board_key_label(keycode::KEY_V) == "V"@,
        board_key_label(keycode::KEY_W) == "W"@,
        board_key_label(keycode::KEY_X) == "X"@,
        board_key_label(keycode::KEY_Y) == "Y"@,
        board_key_label(keycode::KEY_Z) == "Z"@,
        board_key_label(keycode::KEY_LEFT_BRACKET) == "{"@,
        board_key_label(keycode::KEY_BACKSLASH) == "\\"@,
        board_key_label(keycode::KEY_RIGHT_BRACKET) == "}"@,
        board_key_label(keycode::KEY_GRAVE) == "`"@,
        board_key_label(keycode::KEY_SPACE) == "Space"@,
        board_key_label(keycode::KEY_ESCAPE) == "Escape"@,
        board_key_label(keycode::KEY_ENTER) == "Enter"@,
        board_key_label(keycode::KEY_TAB) == "Tabulation"@,
        board_key_label(keycode::KEY_BACKSPACE) == "Backspace"@,
        board_key_label(keycode::KEY_INSERT) == "Insert"@,
        board_key_label(keycode::KEY_DELETE) == "Delete"@,
        board_key_label(keycode::KEY_RIGHT) == "Right"@,
        board_key_label(keycode::KEY_LEFT) == "Left"@,
        board_key_label(keycode::KEY_DOWN) == "Down"@,
        board_key_label(keycode::KEY_UP) == "Up"@,
        board_key_label(keycode::KEY_PAGE_UP) == "Page Up"@,
        board_key_label(keycode::KEY_PAGE_DOWN) == "Page Down"@,
        board_key_label(keycode::KEY_HOME) == "Home"@,
        board_key_label(keycode::KEY_END) == "End"@,
        board_key_label(keycode::KEY_CAPS_LOCK) == "Case Lock"@,
        board_key_label(keycode::KEY_SCROLL_LOCK) == "Scroll Lock"@,
        board_key_label(keycode::KEY_NUM_LOCK) == "Number Lock"@,
        board_key_label(keycode::KEY_PRINT_SCREEN) == "Print Screen"@,
        board_key_label(keycode::KEY_PAUSE) == "Pause"@,
        board_key_label(keycode::KEY_F1) == "F1"@,
        board_key_label(keycode::KEY_F2) == "F2"@,
        board_key_label(keycode::KEY_F3) == "F3"@,
        board_key_label(keycode::KEY_F4) == "F4"@,
        board_key_label(keycode::KEY_F5) == "F5"@,
        board_key_label(keycode::KEY_F6) == "F6"@,
        board_key_label(keycode::KEY_F7) == "F7"@,
        board_key_label(keycode::KEY_F8) == "F8"@,
        board_key_label(keycode::KEY_F9) == "F9"@,
        board_key_label(keycode::KEY_F10) == "F10"@,
        board_key_label(keycode::KEY_F11) == "F11"@,
        board_key_label(keycode::KEY_F12) == "F12"@,
        board_key_label(keycode::KEY_LEFT_SHIFT) == "L. Shift"@,
        board_key_label(keycode::KEY_LEFT_CONTROL) == "L. Control"@,
        board_key_label(keycode::KEY_LEFT_ALT) == "L. Alternate"@,
        board_key_label(keycode::KEY_LEFT_SUPER) == "L. Super"@,
        board_key_label(keycode::KEY_RIGHT_SHIFT) == "R. Shift"@,
        board_key_label(keycode::KEY_RIGHT_CONTROL) == "R. Control"@,
        board_key_label(keycode::KEY_RIGHT_ALT) == "R. Alternate"@,
        board_key_label(keycode::KEY_RIGHT_SUPER) == "R. Super"@,
        board_key_label(keycode::KEY_KB_MENU) == "Menu"@,
        board_key_label(keycode::KEY_KP_0) == "Pad 0"@,
        board_key_label(keycode::KEY_KP_1) == "Pad 1"@,
        board_key_label(keycode::KEY_KP_2) == "Pad 2"@,
        board_key_label(keycode::KEY_KP_3) == "Pad 3"@,
        board_key_label(keycode::KEY_KP_4) == "Pad 4"@,
        board_key_label(keycode::KEY_KP_5) == "Pad 5"@,
        board_key_label(keycode::KEY_KP_6) == "Pad 6"@,
        board_key_label(keycode::KEY_KP_7) == "Pad 7"@,
        board_key_label(keycode::KEY_KP_8) == "Pad 8"@,
        board_key_label(keycode::KEY_KP_9) == "Pad 9"@,
        board_key_label(keycode::KEY_KP_DECIMAL) == "Pad ."@,
        board_key_label(keycode::KEY_KP_DIVIDE) == "Pad /"@,
        board_key_label(keycode::KEY_KP_MULTIPLY) == "Pad *"@,
        board_key_label(keycode::KEY_KP_SUBTRACT) == "Pad -"@,
        board_key_label(keycode::KEY_KP_ADD) == "Pad +"@,
        board_key_label(keycode::KEY_KP_ENTER) == "Pad Enter"@,
        board_key_label(keycode::KEY_KP_EQUAL) == "Pad ="@,
        board_key_label(keycode::KEY_BACK) == "Back"@,
        board_key_label(keycode::KEY_MENU) == "Menu"@,
        board_key_label(keycode::KEY_VOLUME_UP) == "Volume Up"@,
        board_key_label(keycode::KEY_VOLUME_DOWN) == "Volume Down"@,
{
}

} // verus!
