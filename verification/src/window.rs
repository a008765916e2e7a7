//! The decisions of the menu interface: which device drives it, which
//! widget has the cursor, what a widget does with the device's response,
//! and how the menu pages follow each other. Drawing, and every measure in
//! pixels, stays with the caller.

use vstd::prelude::*;

use crate::keycode;
use crate::user::{GlyphKind, Input, LocaleKind};

verus! {

/// Where the left stick of the gamepad rests: pushed up past the dead zone,
/// within it, or pushed down past it.
#[derive(PartialEq, Eq, Structural, Copy, Clone, Debug)]
pub enum StickZone {
    Up,
    Rest,
    Down,
}

/// The device that drives the interface. The keyboard and the gamepad move
/// a cursor over the widgets by index; the mouse points at them.
#[derive(PartialEq, Eq, Structural, Copy, Clone, Debug)]
pub enum Device {
    Board { index: usize },
    Mouse,
    Pad { index: usize, stick: StickZone },
}

impl Default for Device {
    fn default() -> (device: Self)
        ensures
            device == Device::Mouse,
    {
        Device::Mouse
    }
}

/// An answer of the device to the widget under the cursor.
#[derive(PartialEq, Eq, Structural, Copy, Clone, Debug)]
pub enum DeviceResponse {
    Accept,
    Cancel,
    SideA,
    SideB,
}

/// The cursor change that goes with a change of device.
#[derive(PartialEq, Eq, Structural, Copy, Clone, Debug)]
pub enum CursorChange {
    Show,
    Hide,
}

/// What the cursor keys (or the gamepad's pad and stick) did this frame.
#[derive(Copy, Clone, Debug)]
pub struct Navigation {
    /// The "up" key or button went down (or repeats).
    pub up: bool,
    /// The "down" key or button went down (or repeats).
    pub down: bool,
    /// Where the left stick rests now (gamepad only).
    pub stick: StickZone,
}

/// What happened this frame that can change the driving device.
#[derive(Copy, Clone, Debug)]
pub struct DeviceEvents {
    /// Some keyboard key went down.
    pub key_pressed: bool,
    /// The mouse moved.
    pub mouse_moved: bool,
    /// Some mouse button went down.
    pub mouse_pressed: bool,
    /// Some gamepad button went down.
    pub pad_pressed: bool,
}

/// One key or button of a response table this frame.
#[derive(Copy, Clone, Debug)]
pub struct KeyState {
    /// It went down (for the keyboard: or repeats).
    pub pressed: bool,
    /// It went up.
    pub released: bool,
}

/// Which way the mouse wheel turned this frame.
#[derive(PartialEq, Eq, Structural, Copy, Clone, Debug)]
pub enum Wheel {
    Forward,
    Still,
    Backward,
}

/// The keys or buttons of the driving device's response table this frame,
/// in the table's order, and the mouse wheel.
#[derive(Copy, Clone, Debug)]
pub struct ResponseEvents {
    pub accept: KeyState,
    pub cancel: KeyState,
    pub side_a: KeyState,
    pub side_b: KeyState,
    pub wheel: Wheel,
}

/// A step back in a ring of `bound` places.
pub open spec fn step_back(index: int, bound: int) -> int {
    if index > 0 {
        index - 1
    } else {
        bound - 1
    }
}

/// The cursor index after the keyboard's navigation.
pub open spec fn board_index(index: int, bound: int, nav: Navigation) -> int {
    let a = if nav.up {
        step_back(index, bound)
    } else {
        index
    };
    let b = if nav.down {
        a + 1
    } else {
        a
    };
    b % bound
}

/// The cursor index after the gamepad's navigation: the stick moves the
/// cursor when it leaves the dead zone, the pad's buttons when pressed.
pub open spec fn pad_index(index: int, stick: StickZone, bound: int, nav: Navigation) -> int {
    let a = if nav.stick == StickZone::Up && stick != StickZone::Up {
        step_back(index, bound)
    } else {
        index
    };
    let b = if nav.stick == StickZone::Down && stick != StickZone::Down {
        a + 1
    } else {
        a
    };
    let c = if nav.up {
        step_back(b, bound)
    } else {
        b
    };
    let d = if nav.down {
        c + 1
    } else {
        c
    };
    d % bound
}

/// The answer of a response table: the first entry, in table order, whose
/// key went down (`true`) or up (`false`).
pub open spec fn table_response(entries: Seq<(DeviceResponse, KeyState)>) -> Option<(DeviceResponse, bool)>
    decreases entries.len(),
{
    if entries.len() == 0 {
        None
    } else if entries[0].1.pressed {
        Some((entries[0].0, true))
    } else if entries[0].1.released {
        Some((entries[0].0, false))
    } else {
        table_response(entries.drop_first())
    }
}

/// The four entries of the keyboard and gamepad tables.
pub open spec fn full_table(events: ResponseEvents) -> Seq<(DeviceResponse, KeyState)> {
    seq![
        (DeviceResponse::Accept, events.accept),
        (DeviceResponse::Cancel, events.cancel),
        (DeviceResponse::SideA, events.side_a),
        (DeviceResponse::SideB, events.side_b),
    ]
}

/// The two entries of the mouse table.
pub open spec fn mouse_table(events: ResponseEvents) -> Seq<(DeviceResponse, KeyState)> {
    seq![(DeviceResponse::Accept, events.accept), (DeviceResponse::Cancel, events.cancel)]
}

/// The cursor's steps over `bound` widgets stay within `usize`: a step
/// forward is never taken from the largest index. (A step back from the
/// first widget needs `bound > 0`, which is required apart.)
pub open spec fn index_fits(device: Device, bound: int, nav: Navigation) -> bool {
    match device {
        Device::Board { index } => nav.down ==> (if nav.up {
            step_back(index as int, bound)
        } else {
            index as int
        }) < usize::MAX,
        Device::Mouse => true,
        Device::Pad { index, stick } => {
            let a = if nav.stick == StickZone::Up && stick != StickZone::Up {
                step_back(index as int, bound)
            } else {
                index as int
            };
            let stick_down = nav.stick == StickZone::Down && stick != StickZone::Down;
            let b = if stick_down {
                a + 1
            } else {
                a
            };
            let c = if nav.up {
                step_back(b, bound)
            } else {
                b
            };
            &&& stick_down ==> a < usize::MAX
            &&& nav.down ==> c < usize::MAX
        },
    }
}

/// The device after the cursor moved over `bound` widgets.
pub open spec fn navigated(device: Device, bound: int, nav: Navigation) -> Device {
    match device {
        Device::Board { index } => Device::Board { index: board_index(index as int, bound, nav) as usize },
        Device::Mouse => Device::Mouse,
        Device::Pad { index, stick } => Device::Pad {
            index: pad_index(index as int, stick, bound, nav) as usize,
            stick: nav.stick,
        },
    }
}

/// The device after this frame's events, with the cursor change to make:
/// the device the events point to when it is of another kind (the cursor
/// shown for the mouse, hidden for the others); the same device otherwise.
pub open spec fn changed(device: Device, events: DeviceEvents) -> (Device, Option<CursorChange>) {
    match device.wanted(events) {
        Some(next) => if next.same_kind(device) {
            (device, None)
        } else {
            (next, Some(if next is Mouse {
                CursorChange::Show
            } else {
                CursorChange::Hide
            }))
        },
        None => (device, None),
    }
}

impl Device {
    pub open spec fn cursor_index(self) -> usize {
        match self {
            Device::Board { index } => index,
            Device::Mouse => 0,
            Device::Pad { index, .. } => index,
        }
    }

    /// The device a change of this frame points to, before it is compared
    /// with the current one: the gamepad wins over the mouse, the mouse over
    /// the keyboard. The mouse counts by motion while the keyboard drives,
    /// by its buttons otherwise.
    pub open spec fn wanted(self, events: DeviceEvents) -> Option<Device> {
        if events.pad_pressed {
            Some(Device::Pad { index: 0, stick: StickZone::Rest })
        } else if (self is Board && events.mouse_moved) || (!(self is Board) && events.mouse_pressed) {
            Some(Device::Mouse)
        } else if events.key_pressed {
            Some(Device::Board { index: 0 })
        } else {
            None
        }
    }

    /// Whether two devices are of the same kind.
    pub open spec fn same_kind(self, other: Device) -> bool {
        ||| (self is Board && other is Board)
        ||| (self is Mouse && other is Mouse)
        ||| (self is Pad && other is Pad)
    }

    pub open spec fn spec_response(self, events: ResponseEvents) -> Option<(DeviceResponse, bool)> {
        match self {
            Device::Mouse => match table_response(mouse_table(events)) {
                Some(found) => Some(found),
                None => match events.wheel {
                    Wheel::Forward => Some((DeviceResponse::SideB, true)),
                    Wheel::Backward => Some((DeviceResponse::SideA, true)),
                    Wheel::Still => None,
                },
            },
            _ => table_response(full_table(events)),
        }
    }

    /// Whether the keyboard drives the interface.
    pub fn is_board(&self) -> (board: bool)
        ensures
            board == (self is Board),
    {
        matches!(self, Device::Board { .. })
    }

    /// Whether the mouse drives the interface.
    pub fn is_mouse(&self) -> (mouse: bool)
        ensures
            mouse == (self is Mouse),
    {
        matches!(self, Device::Mouse)
    }

    /// Whether the gamepad drives the interface.
    pub fn is_pad(&self) -> (pad: bool)
        ensures
            pad == (self is Pad),
    {
        matches!(self, Device::Pad { .. })
    }

    /// Whether the player asks for the menu: the escape key for the keyboard
    /// and the mouse, the gamepad's start button for the gamepad.
    pub fn escape(&self, escape_key_pressed: bool, start_button_pressed: bool) -> (asked: bool)
        ensures
            asked == if self is Pad {
                start_button_pressed
            } else {
                escape_key_pressed
            },
    {
        match self {
            Device::Board { .. } => escape_key_pressed,
            Device::Mouse => escape_key_pressed,
            Device::Pad { .. } => start_button_pressed,
        }
    }

    /// Whether the widget at `widget_index` is under the cursor: for the
    /// mouse, whether the pointer lies in the widget's shape.
    pub fn hover(&self, widget_index: usize, pointer_inside: bool) -> (hovered: bool)
        ensures
            hovered == if self is Mouse {
                pointer_inside
            } else {
                self.cursor_index() == widget_index
            },
    {
        match self {
            Device::Board { index } => *index == widget_index,
            Device::Mouse => pointer_inside,
            Device::Pad { index, .. } => *index == widget_index,
        }
    }

    /// Whether the cursor can move over `bound` widgets with this frame's
    /// navigation: the mouse always can; the keyboard and the gamepad need
    /// a widget, and no step forward from the largest index.
    pub fn cursor_fits(&self, bound: usize, nav: Navigation) -> (fits: bool)
        ensures
            fits == ((*self is Mouse || bound > 0) && index_fits(*self, bound as int, nav)),
    {
        match self {
            Device::Mouse => true,
            Device::Board { index } => {
                if bound == 0 {
                    return false;
                }
                if !nav.down {
                    return true;
                }
                let a = if nav.up {
                    if *index > 0 {
                        *index - 1
                    } else {
                        bound - 1
                    }
                } else {
                    *index
                };
                a < usize::MAX
            },
            Device::Pad { index, stick } => {
                if bound == 0 {
                    return false;
                }
                let a = if nav.stick == StickZone::Up && *stick != StickZone::Up {
                    if *index > 0 {
                        *index - 1
                    } else {
                        bound - 1
                    }
                } else {
                    *index
                };
                let stick_down = nav.stick == StickZone::Down && *stick != StickZone::Down;
                if stick_down && a == usize::MAX {
                    return false;
                }
                let b = if stick_down {
                    a + 1
                } else {
                    a
                };
                let c = if nav.up {
                    if b > 0 {
                        b - 1
                    } else {
                        bound - 1
                    }
                } else {
                    b
                };
                !nav.down || c < usize::MAX
            },
        }
    }

    /// Moves the keyboard's or gamepad's cursor over `bound` widgets; the
    /// cursor goes round from the first widget to the last and back.
    pub fn update_index(&mut self, bound: usize, nav: Navigation)
        requires
            (*old(self)) is Mouse || bound > 0,
            index_fits(*old(self), bound as int, nav),
        ensures
            *final(self) == navigated(*old(self), bound as int, nav),
            !((*old(self)) is Mouse) ==> final(self).cursor_index() < bound,
    {
        match self {
            Device::Board { index } => {
                let mut i = *index;
                if nav.up {
                    if i > 0 {
                        i -= 1;
                    } else {
                        i = bound - 1;
                    }
                }
                if nav.down {
                    i += 1;
                }
                i %= bound;
                *index = i;
            },
            Device::Mouse => {},
            Device::Pad { index, stick } => {
                let mut i = *index;
                if nav.stick == StickZone::Up && *stick != StickZone::Up {
                    if i > 0 {
                        i -= 1;
                    } else {
                        i = bound - 1;
                    }
                }
                if nav.stick == StickZone::Down && *stick != StickZone::Down {
                    i += 1;
                }
                *stick = nav.stick;
                if nav.up {
                    if i > 0 {
                        i -= 1;
                    } else {
                        i = bound - 1;
                    }
                }
                if nav.down {
                    i += 1;
                }
                i %= bound;
                *index = i;
            },
        }
    }

    /// The device after this frame's events: the device they point to when
    /// it is of another kind than this one (starting with its cursor on the
    /// first widget), with the cursor to show for the mouse and to hide for
    /// the others; this device, unchanged, otherwise.
    pub fn poll_change(&self, events: DeviceEvents) -> (change: (Device, Option<CursorChange>))
        ensures
            change == changed(*self, events),
    {
        let mut new_device = None;
        if events.key_pressed {
            new_device = Some(Device::Board { index: 0 });
        }
        if self.is_board() {
            if events.mouse_moved {
                new_device = Some(Device::Mouse);
            }
        } else {
            if events.mouse_pressed {
                new_device = Some(Device::Mouse);
            }
        }
        if events.pad_pressed {
            new_device = Some(Device::Pad { index: 0, stick: StickZone::Rest });
        }
        match new_device {
            Some(next) => {
                let same = (next.is_board() && self.is_board()) || (next.is_mouse() && self.is_mouse())
                    || (next.is_pad() && self.is_pad());
                if same {
                    (*self, None)
                } else if next.is_mouse() {
                    (next, Some(CursorChange::Show))
                } else {
                    (next, Some(CursorChange::Hide))
                }
            },
            None => (*self, None),
        }
    }

    /// The device's answer this frame: the first entry of its table, in
    /// table order (accept, cancel, then for the keyboard and the gamepad
    /// the two sides), whose key went down or up; for the mouse, failing
    /// that, the wheel: forward for side B, backward for side A.
    pub fn response(&self, events: ResponseEvents) -> (answer: Option<(DeviceResponse, bool)>)
        ensures
            answer == self.spec_response(events),
    {
        proof {
            reveal_with_fuel(table_response, 5);
        }
        if events.accept.pressed {
            return Some((DeviceResponse::Accept, true));
        }
        if events.accept.released {
            return Some((DeviceResponse::Accept, false));
        }
        if events.cancel.pressed {
            return Some((DeviceResponse::Cancel, true));
        }
        if events.cancel.released {
            return Some((DeviceResponse::Cancel, false));
        }
        match self {
            Device::Mouse => {
                match events.wheel {
                    Wheel::Forward => Some((DeviceResponse::SideB, true)),
                    Wheel::Backward => Some((DeviceResponse::SideA, true)),
                    Wheel::Still => None,
                }
            },
            _ => {
                if events.side_a.pressed {
                    return Some((DeviceResponse::SideA, true));
                }
                if events.side_a.released {
                    return Some((DeviceResponse::SideA, false));
                }
                if events.side_b.pressed {
                    return Some((DeviceResponse::SideB, true));
                }
                if events.side_b.released {
                    return Some((DeviceResponse::SideB, false));
                }
                None
            },
        }
    }
}


/// The glyph that tells which key or button gives a response: a key's name
/// written in brackets for the keyboard, or one or two images.
#[derive(Copy, Clone, Debug)]
pub enum Prompt {
    Text(&'static str),
    Image(&'static str),
    Pair(&'static str, &'static str),
}

impl Device {
    /// The glyph drawn beside a widget's label for a response of this
    /// device.
    pub fn glyph_response(&self, response: DeviceResponse) -> (prompt: Prompt)
        ensures
            self is Board ==> prompt == match response {
                DeviceResponse::Accept => Prompt::Text("ENTER"),
                DeviceResponse::Cancel => Prompt::Text("ESCAPE"),
                _ => Prompt::Text("<- | ->"),
            },
            self is Mouse ==> prompt == match response {
                DeviceResponse::Accept => Prompt::Image("data/video/glyph/mouse/button_l.png"),
                DeviceResponse::Cancel => Prompt::Image("data/video/glyph/mouse/button_r.png"),
                _ => Prompt::Pair("data/video/glyph/mouse/wheel_u.png", "data/video/glyph/mouse/wheel_d.png"),
            },
            self is Pad ==> prompt == match response {
                DeviceResponse::Accept => Prompt::Image("data/video/glyph/play_station/button_d.png"),
                DeviceResponse::Cancel => Prompt::Image("data/video/glyph/play_station/button_r.png"),
                _ => Prompt::Pair(
                    "data/video/glyph/play_station/pad_l.png",
                    "data/video/glyph/play_station/pad_r.png",
                ),
            },
    {
        match self {
            Device::Board { .. } => match response {
                DeviceResponse::Accept => Prompt::Text("ENTER"),
                DeviceResponse::Cancel => Prompt::Text("ESCAPE"),
                _ => Prompt::Text("<- | ->"),
            },
            Device::Mouse => match response {
                DeviceResponse::Accept => Prompt::Image("data/video/glyph/mouse/button_l.png"),
                DeviceResponse::Cancel => Prompt::Image("data/video/glyph/mouse/button_r.png"),
                _ => Prompt::Pair("data/video/glyph/mouse/wheel_u.png", "data/video/glyph/mouse/wheel_d.png"),
            },
            Device::Pad { .. } => match response {
                DeviceResponse::Accept => Prompt::Image("data/video/glyph/play_station/button_d.png"),
                DeviceResponse::Cancel => Prompt::Image("data/video/glyph/play_station/button_r.png"),
                _ => Prompt::Pair(
                    "data/video/glyph/play_station/pad_l.png",
                    "data/video/glyph/play_station/pad_r.png",
                ),
            },
        }
    }
}

/// The image, under `data/video/glyph/mouse/`, that shows a mouse button.
pub fn mouse_glyph(code: u32) -> (file: Option<&'static str>)
    ensures
        file is Some <==> keycode::is_mouse_code(code),
        code == keycode::MOUSE_BUTTON_RIGHT ==> file == Some("button_r.png"),
        code == keycode::MOUSE_BUTTON_MIDDLE ==> file == Some("button_m.png"),
        code == keycode::MOUSE_BUTTON_LEFT || code == keycode::MOUSE_BUTTON_SIDE || code
            == keycode::MOUSE_BUTTON_EXTRA || code == keycode::MOUSE_BUTTON_FORWARD || code
            == keycode::MOUSE_BUTTON_BACK ==> file == Some("button_l.png"),
{
    match code {
        keycode::MOUSE_BUTTON_LEFT => Some("button_l.png"),
        keycode::MOUSE_BUTTON_RIGHT => Some("button_r.png"),
        keycode::MOUSE_BUTTON_MIDDLE => Some("button_m.png"),
        keycode::MOUSE_BUTTON_SIDE => Some("button_l.png"),
        keycode::MOUSE_BUTTON_EXTRA => Some("button_l.png"),
        keycode::MOUSE_BUTTON_FORWARD => Some("button_l.png"),
        keycode::MOUSE_BUTTON_BACK => Some("button_l.png"),
        _ => None,
    }
}

/// The image, under the folder of the glyph set, that shows a gamepad
/// button.
pub open spec fn pad_glyph_file(code: u32) -> Option<&'static str> {
    match code {
        keycode::GAMEPAD_BUTTON_UNKNOWN => Some("pad_u.png"),
        keycode::GAMEPAD_BUTTON_LEFT_FACE_UP => Some("pad_u.png"),
        keycode::GAMEPAD_BUTTON_LEFT_FACE_RIGHT => Some("pad_r.png"),
        keycode::GAMEPAD_BUTTON_LEFT_FACE_DOWN => Some("pad_d.png"),
        keycode::GAMEPAD_BUTTON_LEFT_FACE_LEFT => Some("pad_l.png"),
        keycode::GAMEPAD_BUTTON_RIGHT_FACE_UP => Some("button_u.png"),
        keycode::GAMEPAD_BUTTON_RIGHT_FACE_RIGHT => Some("button_r.png"),
        keycode::GAMEPAD_BUTTON_RIGHT_FACE_DOWN => Some("button_d.png"),
        keycode::GAMEPAD_BUTTON_RIGHT_FACE_LEFT => Some("button_l.png"),
        keycode::GAMEPAD_BUTTON_LEFT_TRIGGER_1 => Some("l_bumper.png"),
        keycode::GAMEPAD_BUTTON_LEFT_TRIGGER_2 => Some("l_trigger.png"),
        keycode::GAMEPAD_BUTTON_RIGHT_TRIGGER_1 => Some("r_bumper.png"),
        keycode::GAMEPAD_BUTTON_RIGHT_TRIGGER_2 => Some("r_trigger.png"),
        keycode::GAMEPAD_BUTTON_MIDDLE_LEFT => Some("middle_l.png"),
        keycode::GAMEPAD_BUTTON_MIDDLE => Some("middle.png"),
        keycode::GAMEPAD_BUTTON_MIDDLE_RIGHT => Some("middle_r.png"),
        keycode::GAMEPAD_BUTTON_LEFT_THUMB => Some("l_stick_click.png"),
        keycode::GAMEPAD_BUTTON_RIGHT_THUMB => Some("r_stick_click.png"),
        _ => None,
    }
}

/// The image, under the folder of the glyph set, that shows a gamepad
/// button; `None` for a code that names no button.
pub fn pad_glyph(code: u32) -> (file: Option<&'static str>)
    ensures
        file == pad_glyph_file(code),
        file is Some <==> keycode::is_pad_code(code),
{
    match code {
        keycode::GAMEPAD_BUTTON_UNKNOWN => Some("pad_u.png"),
        keycode::GAMEPAD_BUTTON_LEFT_FACE_UP => Some("pad_u.png"),
        keycode::GAMEPAD_BUTTON_LEFT_FACE_RIGHT => Some("pad_r.png"),
        keycode::GAMEPAD_BUTTON_LEFT_FACE_DOWN => Some("pad_d.png"),
        keycode::GAMEPAD_BUTTON_LEFT_FACE_LEFT => Some("pad_l.png"),
        keycode::GAMEPAD_BUTTON_RIGHT_FACE_UP => Some("button_u.png"),
        keycode::GAMEPAD_BUTTON_RIGHT_FACE_RIGHT => Some("button_r.png"),
        keycode::GAMEPAD_BUTTON_RIGHT_FACE_DOWN => Some("button_d.png"),
        keycode::GAMEPAD_BUTTON_RIGHT_FACE_LEFT => Some("button_l.png"),
        keycode::GAMEPAD_BUTTON_LEFT_TRIGGER_1 => Some("l_bumper.png"),
        keycode::GAMEPAD_BUTTON_LEFT_TRIGGER_2 => Some("l_trigger.png"),
        keycode::GAMEPAD_BUTTON_RIGHT_TRIGGER_1 => Some("r_bumper.png"),
        keycode::GAMEPAD_BUTTON_RIGHT_TRIGGER_2 => Some("r_trigger.png"),
        keycode::GAMEPAD_BUTTON_MIDDLE_LEFT => Some("middle_l.png"),
        keycode::GAMEPAD_BUTTON_MIDDLE => Some("middle.png"),
        keycode::GAMEPAD_BUTTON_MIDDLE_RIGHT => Some("middle_r.png"),
        keycode::GAMEPAD_BUTTON_LEFT_THUMB => Some("l_stick_click.png"),
        keycode::GAMEPAD_BUTTON_RIGHT_THUMB => Some("r_stick_click.png"),
        _ => None,
    }
}

/// What the device answered to one widget this frame.
#[derive(Copy, Clone, Debug)]
pub struct Response {
    /// The widget is under the cursor (or holds the focus).
    pub hover: bool,
    /// The widget holds the focus.
    pub focus: bool,
    /// The device's answer, when the widget is under the cursor.
    pub device: Option<(DeviceResponse, bool)>,
}

impl Default for Response {
    fn default() -> (response: Self)
        ensures
            !response.hover,
            !response.focus,
            response.device is None,
    {
        Response { hover: false, focus: false, device: None }
    }
}

impl Response {
    /// The accept key or button went down.
    pub fn accept(&self) -> (accepted: bool)
        ensures
            accepted == (self.device == Some((DeviceResponse::Accept, true))),
    {
        matches!(self.device, Some((DeviceResponse::Accept, true)))
    }

    /// The cancel key or button went down.
    pub fn cancel(&self) -> (cancelled: bool)
        ensures
            cancelled == (self.device == Some((DeviceResponse::Cancel, true))),
    {
        matches!(self.device, Some((DeviceResponse::Cancel, true)))
    }

    /// The side-A key or button went down (or the wheel turned backward).
    pub fn side_a(&self) -> (side: bool)
        ensures
            side == (self.device == Some((DeviceResponse::SideA, true))),
    {
        matches!(self.device, Some((DeviceResponse::SideA, true)))
    }

    /// The side-B key or button went down (or the wheel turned forward).
    pub fn side_b(&self) -> (side: bool)
        ensures
            side == (self.device == Some((DeviceResponse::SideB, true))),
    {
        matches!(self.device, Some((DeviceResponse::SideB, true)))
    }
}

/// Which way a slider's value steps this frame.
#[derive(PartialEq, Eq, Structural, Copy, Clone, Debug)]
pub enum Step {
    Less,
    Keep,
    More,
}

/// What a slider does with its value this frame: whether it follows the
/// pointer, which way it steps, and whether it is then held within bounds.
#[derive(Copy, Clone, Debug)]
pub struct SliderMove {
    pub follow: bool,
    pub step: Step,
    pub clamp: bool,
}

/// A value of a choice list, such as the glyph set or the language.
pub trait Choice: Copy {
    fn same(&self, other: &Self) -> (equal: bool)
        ensures
            equal == (*self == *other),
    ;
}

impl Choice for GlyphKind {
    fn same(&self, other: &Self) -> (equal: bool) {
        *self == *other
    }
}

impl Choice for LocaleKind {
    fn same(&self, other: &Self) -> (equal: bool) {
        *self == *other
    }
}

/// The first place at or after `from` that holds `value`, or -1.
pub open spec fn find_from<T>(bound: Seq<T>, value: T, from: int) -> int
    decreases bound.len() - from,
{
    if from < 0 || from >= bound.len() {
        -1
    } else if bound[from] == value {
        from
    } else {
        find_from(bound, value, from + 1)
    }
}

/// The choice before `value` in `bound`, going round from the first to the
/// last; the last choice when `value` is not found after the first place.
pub open spec fn choice_before<T>(bound: Seq<T>, value: T) -> T {
    let at = find_from(bound, value, 1);
    if at >= 1 {
        bound[at - 1]
    } else if bound.len() > 0 {
        bound.last()
    } else {
        value
    }
}

/// The choice after `value` in `bound`, going round from the last to the
/// first; the first choice when `value` is not in `bound`.
pub open spec fn choice_after<T>(bound: Seq<T>, value: T) -> T {
    let at = find_from(bound, value, 0);
    if at >= 0 && at + 1 < bound.len() {
        bound[at + 1]
    } else if bound.len() > 0 {
        bound[0]
    } else {
        value
    }
}

proof fn lemma_find_from<T>(bound: Seq<T>, value: T, from: int)
    requires
        0 <= from,
    ensures
        find_from(bound, value, from) == -1 || (from <= find_from(bound, value, from) < bound.len()
            && bound[find_from(bound, value, from)] == value),
        find_from(bound, value, from) == -1 ==> forall|k: int| from <= k < bound.len() ==> bound[k] != value,
        find_from(bound, value, from) >= 0 ==> forall|k: int| from <= k < find_from(bound, value, from) ==> bound[k] != value,
    decreases bound.len() - from,
{
    if from < bound.len() && bound[from] != value {
        lemma_find_from(bound, value, from + 1);
    }
}

/// The state of the menu interface that its decisions read: the index the
/// next widget gets, the widget holding the focus, the driving device and
/// the glyph set shown.
#[derive(Copy, Clone, Debug)]
pub struct Window {
    pub index: usize,
    pub focus: Option<usize>,
    pub device: Device,
    pub glyph_kind: GlyphKind,
}

impl Default for Window {
    fn default() -> (window: Self)
        ensures
            window.index == 0,
            window.focus is None,
            window.device == Device::Mouse,
            window.glyph_kind == GlyphKind::PlayStation,
    {
        Window { index: 0, focus: None, device: Device::Mouse, glyph_kind: GlyphKind::PlayStation }
    }
}

impl Window {
    /// Starts a frame of widgets: the next widget is the first.
    pub fn begin(&mut self)
        ensures
            *final(self) == (Window { index: 0, ..*old(self) }),
    {
        self.index = 0;
    }

    /// Ends a frame of widgets: the keyboard's or gamepad's cursor moves
    /// over the widgets of this frame, then the driving device may change.
    /// Returns the cursor change to make.
    pub fn close(&mut self, nav: Navigation, events: DeviceEvents) -> (cursor: Option<CursorChange>)
        requires
            old(self).device is Mouse || old(self).index > 0,
            index_fits(old(self).device, old(self).index as int, nav),
        ensures
            final(self).index == old(self).index,
            final(self).focus == old(self).focus,
            final(self).glyph_kind == old(self).glyph_kind,
            (final(self).device, cursor) == changed(navigated(old(self).device, old(self).index as int, nav), events),
    {
        let bound = self.index;
        self.device.update_index(bound, nav);
        let (device, cursor) = self.device.poll_change(events);
        self.device = device;
        cursor
    }

    /// The next widget gets the next index.
    pub fn advance(&mut self)
        requires
            old(self).index < usize::MAX,
        ensures
            *final(self) == (Window { index: (old(self).index + 1) as usize, ..*old(self) }),
    {
        self.index += 1;
    }

    /// The device's answer to the widget at the current index: the widget
    /// holds the focus when its index is the focused one; it is under the
    /// cursor when it holds the focus, or when the device points at it and
    /// no widget holds the focus; the device answers only a widget under the
    /// cursor.
    pub fn response(&self, pointer_inside: bool, events: ResponseEvents) -> (response: Response)
        ensures
            response.focus == (self.focus == Some(self.index)),
            response.hover == ((self.focus is None && if self.device is Mouse {
                pointer_inside
            } else {
                self.device.cursor_index() == self.index
            }) || response.focus),
            response.device == if response.hover {
                self.device.spec_response(events)
            } else {
                None
            },
    {
        let focus = match self.focus {
            Some(focus) => focus == self.index,
            None => false,
        };
        let hover = self.device.hover(self.index, pointer_inside);
        let hover = (hover && self.focus.is_none()) || focus;
        let device = if hover {
            self.device.response(events)
        } else {
            None
        };
        Response { hover, focus, device }
    }

    /// A toggle widget: accepting it flips the value.
    pub fn toggle(&mut self, response: &Response, value: &mut bool)
        requires
            old(self).index < usize::MAX,
        ensures
            *final(value) == if response.device == Some((DeviceResponse::Accept, true)) {
                !*old(value)
            } else {
                *old(value)
            },
            *final(self) == (Window { index: (old(self).index + 1) as usize, ..*old(self) }),
    {
        if response.accept() {
            *value = !*value;
        }
        self.index += 1;
    }

    /// A slider widget. With the mouse, accepting it takes the focus and
    /// releasing the accept button lets the focus go; while it holds the
    /// focus its value follows the pointer and the sides step it. With the
    /// keyboard or the gamepad, the sides step it while it is under the
    /// cursor. A value that moved is held within the slider's bounds.
    pub fn slider(&mut self, response: &Response) -> (moved: SliderMove)
        requires
            old(self).index < usize::MAX,
        ensures
            ({
                let mouse = old(self).device is Mouse;
                let released = response.device == Some((DeviceResponse::Accept, false));
                let active = (response.focus && !released) || (!response.focus && !mouse);
                &&& moved.follow == (response.focus && !released)
                &&& moved.clamp == active
                &&& moved.step == if active && response.device == Some((DeviceResponse::SideA, true)) {
                    Step::Less
                } else if active && response.device == Some((DeviceResponse::SideB, true)) {
                    Step::More
                } else {
                    Step::Keep
                }
                &&& final(self).focus == if response.focus && released && mouse {
                    None
                } else if response.device == Some((DeviceResponse::Accept, true)) && mouse {
                    Some(old(self).index)
                } else {
                    old(self).focus
                }
            }),
            final(self).index == old(self).index + 1,
            final(self).device == old(self).device,
            final(self).glyph_kind == old(self).glyph_kind,
    {
        let mouse = self.device.is_mouse();
        if response.accept() && mouse {
            self.focus = Some(self.index);
        }
        let released = matches!(response.device, Some((DeviceResponse::Accept, false)));
        let active;
        if response.focus {
            if released {
                if mouse {
                    self.focus = None;
                }
                active = false;
            } else {
                active = true;
            }
        } else {
            active = !mouse;
        }
        let step = if active && response.side_a() {
            Step::Less
        } else if active && response.side_b() {
            Step::More
        } else {
            Step::Keep
        };
        self.index += 1;
        SliderMove { follow: response.focus && !released, step, clamp: active }
    }

    /// A choice widget: the sides of the keyboard or gamepad, and accepting
    /// it, move the value through `bound`: side A to the choice before it,
    /// side B (or accepting) to the choice after it, going round.
    pub fn switch<T: Choice>(&mut self, response: &Response, value: &mut T, bound: &[T])
        requires
            old(self).index < usize::MAX,
        ensures
            ({
                let mouse = old(self).device is Mouse;
                let back = !mouse && response.device == Some((DeviceResponse::SideA, true));
                let forth = (!mouse && response.device == Some((DeviceResponse::SideB, true)))
                    || response.device == Some((DeviceResponse::Accept, true));
                let after_back = if back {
                    choice_before(bound@, *old(value))
                } else {
                    *old(value)
                };
                *final(value) == if forth {
                    choice_after(bound@, after_back)
                } else {
                    after_back
                }
            }),
            *final(self) == (Window { index: (old(self).index + 1) as usize, ..*old(self) }),
    {
        let mouse = self.device.is_mouse();
        let back = !mouse && response.side_a();
        let forth = (!mouse && response.side_b()) || response.accept();
        if back {
            *value = pick_before(bound, *value);
        }
        if forth {
            *value = pick_after(bound, *value);
        }
        self.index += 1;
    }

    /// A binding widget: accepting it takes the focus; while it holds the
    /// focus, the next key, mouse button or gamepad button that goes down
    /// becomes the binding (a gamepad button over a mouse button over a
    /// key) and the focus goes.
    pub fn action(
        &mut self,
        response: &Response,
        value: &mut Input,
        key: Option<u32>,
        mouse: Option<u32>,
        pad: Option<u32>,
    )
        requires
            old(self).index < usize::MAX,
        ensures
            response.focus ==> *final(value) == match pad {
                Some(code) => Input::Pad { key: code, press: false, release: false },
                None => match mouse {
                    Some(code) => Input::Mouse { key: code, press: false, release: false },
                    None => match key {
                        Some(code) => Input::Board { key: code, press: false, release: false },
                        None => *old(value),
                    },
                },
            },
            !response.focus ==> *final(value) == *old(value),
            final(self).focus == if response.focus {
                if key is Some || mouse is Some || pad is Some {
                    None
                } else {
                    old(self).focus
                }
            } else if response.device == Some((DeviceResponse::Accept, true)) {
                Some(old(self).index)
            } else {
                old(self).focus
            },
            final(self).index == old(self).index + 1,
            final(self).device == old(self).device,
            final(self).glyph_kind == old(self).glyph_kind,
    {
        if response.focus {
            if let Some(code) = key {
                *value = Input::new_board(code);
                self.focus = None;
            }
            if let Some(code) = mouse {
                *value = Input::new_mouse(code);
                self.focus = None;
            }
            if let Some(code) = pad {
                *value = Input::new_pad(code);
                self.focus = None;
            }
        } else {
            if response.accept() {
                self.focus = Some(self.index);
            }
        }
        self.index += 1;
    }
}

/// The choice before `value` in `bound` (see `choice_before`).
pub fn pick_before<T: Choice>(bound: &[T], value: T) -> (picked: T)
    ensures
        picked == choice_before(bound@, value),
{
    proof {
        lemma_find_from(bound@, value, 1);
    }
    let mut i: usize = 1;
    while i < bound.len()
        invariant
            1 <= i <= bound@.len() || (i == 1 && bound@.len() == 0),
            find_from(bound@, value, 1) == find_from(bound@, value, i as int),
        decreases bound@.len() - i,
    {
        if bound[i].same(&value) {
            return bound[i - 1];
        }
        i += 1;
    }
    if bound.len() > 0 {
        bound[bound.len() - 1]
    } else {
        value
    }
}

/// The choice after `value` in `bound` (see `choice_after`).
pub fn pick_after<T: Choice>(bound: &[T], value: T) -> (picked: T)
    ensures
        picked == choice_after(bound@, value),
{
    let mut i: usize = 0;
    while i < bound.len()
        invariant
            0 <= i <= bound@.len(),
            find_from(bound@, value, 0) == find_from(bound@, value, i as int),
        decreases bound@.len() - i,
    {
        if bound[i].same(&value) {
            if i + 1 < bound.len() {
                return bound[i + 1];
            }
            return bound[0];
        }
        i += 1;
    }
    if bound.len() > 0 {
        bound[0]
    } else {
        value
    }
}

/// Going to the choice after the one before brings a choice of a list of
/// distinct choices back to itself, and so does going to the one before the
/// one after.
pub proof fn choices_go_round<T>(bound: Seq<T>, value: T)
    requires
        bound.contains(value),
        forall|i: int, j: int| 0 <= i < j < bound.len() ==> bound[i] != bound[j],
    ensures
        choice_after(bound, choice_before(bound, value)) == value,
        choice_before(bound, choice_after(bound, value)) == value,
{
    let i = choose|i: int| 0 <= i < bound.len() && bound[i] == value;
    lemma_find_from(bound, value, 0);
    lemma_find_from(bound, value, 1);
    let before = choice_before(bound, value);
    lemma_find_from(bound, before, 0);
    let after = choice_after(bound, value);
    lemma_find_from(bound, after, 1);
    if i >= 1 {
        assert(find_from(bound, value, 1) == i);
        assert(find_from(bound, before, 0) == i - 1);
    } else {
        assert(find_from(bound, value, 1) == -1);
        assert(find_from(bound, before, 0) == bound.len() - 1);
    }
    assert(find_from(bound, value, 0) == i);
    if i + 1 < bound.len() {
        assert(find_from(bound, after, 1) == i + 1);
    } else if i >= 1 {
        assert(after == bound[0]);
        assert(find_from(bound, after, 1) == -1);
    } else {
        assert(find_from(bound, after, 1) == -1);
    }
}

/// A page of the menu.
#[derive(PartialEq, Eq, Structural, Copy, Clone, Debug)]
pub enum Layout {
    Intro,
    Main,
    Zoom,
    Begin,
    Setup,
    Close,
}

impl Layout {
    /// Goes to another page (or leaves the menu with `None`): the next
    /// widget is the first one again.
    pub fn change_layout(window: &mut Window, layout_slot: &mut Option<Layout>, layout: Option<Layout>)
        ensures
            *final(window) == (Window { index: 0, ..*old(window) }),
            *final(layout_slot) == layout,
    {
        window.index = 0;
        *layout_slot = layout;
    }

    /// The page the main page leads to, given which of its buttons ("begin",
    /// "setup", "close", drawn in that order) were accepted; the last one
    /// drawn wins.
    pub fn main_choice(begin: bool, setup: bool, close: bool) -> (layout: Option<Layout>)
        ensures
            layout == if close {
                Some(Layout::Close)
            } else if setup {
                Some(Layout::Setup)
            } else if begin {
                Some(Layout::Begin)
            } else {
                None
            },
    {
        let mut layout = None;
        if begin {
            layout = Some(Layout::Begin);
        }
        if setup {
            layout = Some(Layout::Setup);
        }
        if close {
            layout = Some(Layout::Close);
        }
        layout
    }

    /// The begin page with no game running goes straight to the zoom into a
    /// new game, hiding the cursor (`Some`); with a game running it stays
    /// (`None`).
    pub fn begin_choice(world_running: bool) -> (layout: Option<Layout>)
        ensures
            layout == if world_running {
                None
            } else {
                Some(Layout::Zoom)
            },
    {
        if world_running {
            None
        } else {
            Some(Layout::Zoom)
        }
    }

    /// Going back from a page: when the cancel key or button goes down and
    /// no widget holds the focus, the menu goes to `target` (`None` leaves
    /// the menu and hides the cursor). Returns the page to go to and whether
    /// to hide the cursor.
    pub fn layout_back(
        response: Option<(DeviceResponse, bool)>,
        focus: Option<usize>,
        target: Option<Layout>,
    ) -> (back: Option<(Option<Layout>, bool)>)
        ensures
            back == if response == Some((DeviceResponse::Cancel, true)) && focus is None {
                Some((target, target is None))
            } else {
                None
            },
    {
        match response {
            Some((DeviceResponse::Cancel, true)) => {
                if focus.is_none() {
                    Some((target, target.is_none()))
                } else {
                    None
                }
            },
            _ => None,
        }
    }

    /// Out of the menu, the escape request opens the main page.
    pub fn escape_layout(layout: Option<Layout>, escape: bool) -> (open: Option<Layout>)
        ensures
            open == if layout is None && escape {
                Some(Layout::Main)
            } else {
                None
            },
    {
        if layout.is_none() && escape {
            Some(Layout::Main)
        } else {
            None
        }
    }
}

/// How each device answers: the keyboard and the gamepad by the same
/// four-entry table, in the order accept, cancel, side A, side B, a key
/// answering by going down (`true`) or, failing that, up (`false`); the
/// mouse by its two buttons (accept, cancel) in the same way, and failing
/// them by its wheel (forward for side B, backward for side A).
pub proof fn device_answers(device: Device, events: ResponseEvents)
    ensures
        !(device is Mouse) ==> device.spec_response(events) == (if events.accept.pressed {
            Some((DeviceResponse::Accept, true))
        } else if events.accept.released {
            Some((DeviceResponse::Accept, false))
        } else if events.cancel.pressed {
            Some((DeviceResponse::Cancel, true))
        } else if events.cancel.released {
            Some((DeviceResponse::Cancel, false))
        } else if events.side_a.pressed {
            Some((DeviceResponse::SideA, true))
        } else if events.side_a.released {
            Some((DeviceResponse::SideA, false))
        } else if events.side_b.pressed {
            Some((DeviceResponse::SideB, true))
        } else if events.side_b.released {
            Some((DeviceResponse::SideB, false))
        } else {
            None
        }),
        device is Mouse ==> device.spec_response(events) == (if events.accept.pressed {
            Some((DeviceResponse::Accept, true))
        } else if events.accept.released {
            Some((DeviceResponse::Accept, false))
        } else if events.cancel.pressed {
            Some((DeviceResponse::Cancel, true))
        } else if events.cancel.released {
            Some((DeviceResponse::Cancel, false))
        } else if events.wheel == Wheel::Forward {
            Some((DeviceResponse::SideB, true))
        } else if events.wheel == Wheel::Backward {
            Some((DeviceResponse::SideA, true))
        } else {
            None
        }),
        forall|pad_stick: StickZone, pad_index: usize, board_index: usize|
            #[trigger] (Device::Pad { index: pad_index, stick: pad_stick }).spec_response(events)
                == #[trigger] (Device::Board { index: board_index }).spec_response(events),
{
    reveal_with_fuel(table_response, 5);
}

/// How the keyboard's keys move the cursor over `bound` widgets, wrapping
/// round: down alone goes to the next widget, up alone to the one before
/// (from the first to the last), both or neither stay.
pub proof fn board_cursor_steps(index: usize, bound: int, nav: Navigation)
    requires
        bound > 0,
        index < bound,
    ensures
        nav.down && !nav.up ==> navigated(Device::Board { index }, bound, nav) == (Device::Board {
            index: ((index + 1) % bound) as usize,
        }),
        nav.up && !nav.down ==> navigated(Device::Board { index }, bound, nav) == (Device::Board {
            index: (if index > 0 {
                index - 1
            } else {
                bound - 1
            }) as usize,
        }),
        nav.up == nav.down ==> navigated(Device::Board { index }, bound, nav) == (Device::Board { index }),
{
    vstd::arithmetic::div_mod::lemma_mod_self_0(bound);
    vstd::arithmetic::div_mod::lemma_small_mod(index as nat, bound as nat);
    if index > 0 {
        vstd::arithmetic::div_mod::lemma_small_mod((index - 1) as nat, bound as nat);
    }
    vstd::arithmetic::div_mod::lemma_small_mod((bound - 1) as nat, bound as nat);
}

/// The gamepad's pad buttons move the cursor as the keyboard's keys do;
/// the left stick, when it leaves the dead zone downward (upward), moves it
/// one widget forward (back) as well. The stick's new zone is kept.
pub proof fn pad_cursor_steps(index: usize, stick: StickZone, bound: int, nav: Navigation)
    requires
        bound > 0,
        index < bound,
    ensures
        nav.stick == stick ==> navigated(Device::Pad { index, stick }, bound, nav) == (Device::Pad {
            index: navigated(Device::Board { index }, bound, nav)->Board_index,
            stick,
        }),
        !nav.up && !nav.down && nav.stick == StickZone::Down && stick != StickZone::Down ==> navigated(
            (Device::Pad { index, stick }),
            bound,
            nav,
        ) == (Device::Pad { index: ((index + 1) % bound) as usize, stick: StickZone::Down }),
        !nav.up && !nav.down && nav.stick == StickZone::Up && stick != StickZone::Up ==> navigated(
            (Device::Pad { index, stick }),
            bound,
            nav,
        ) == (Device::Pad {
            index: (if index > 0 {
                index - 1
            } else {
                bound - 1
            }) as usize,
            stick: StickZone::Up,
        }),
        navigated(Device::Mouse, bound, nav) == Device::Mouse,
{
    vstd::arithmetic::div_mod::lemma_small_mod(index as nat, bound as nat);
    if index > 0 {
        vstd::arithmetic::div_mod::lemma_small_mod((index - 1) as nat, bound as nat);
    }
    vstd::arithmetic::div_mod::lemma_small_mod((bound - 1) as nat, bound as nat);
}

/// Which device takes the menu after a frame's events: a gamepad button
/// hands it to the gamepad; otherwise the mouse takes it by moving while
/// the keyboard drives, or by a button while the gamepad or the mouse
/// drives; otherwise a key hands it to the keyboard. A device of another
/// kind starts with its cursor on the first widget, the cursor shown for
/// the mouse and hidden for the others; a device of the same kind is kept
/// as it is.
pub proof fn device_handover(device: Device, events: DeviceEvents)
    ensures
        events.pad_pressed && !(device is Pad) ==> changed(device, events) == (
            (Device::Pad { index: 0, stick: StickZone::Rest }),
            Some(CursorChange::Hide),
        ),
        events.pad_pressed && device is Pad ==> changed(device, events) == (device, None::<CursorChange>),
        !events.pad_pressed && !(device is Board) && events.mouse_pressed && !(device is Mouse) ==> changed(
            device,
            events,
        ) == (Device::Mouse, Some(CursorChange::Show)),
        !events.pad_pressed && device is Board && events.mouse_moved ==> changed(device, events) == (
            Device::Mouse,
            Some(CursorChange::Show),
        ),
        !events.pad_pressed && device is Mouse && events.mouse_pressed ==> changed(device, events) == (
            device,
            None::<CursorChange>,
        ),
        !events.pad_pressed && !(device is Board && events.mouse_moved) && !(!(device is Board)
            && events.mouse_pressed) && events.key_pressed && !(device is Board) ==> changed(device, events) == (
            (Device::Board { index: 0 }),
            Some(CursorChange::Hide),
        ),
        !events.pad_pressed && !events.key_pressed && !(device is Board && events.mouse_moved) && !(!(
        device is Board) && events.mouse_pressed) ==> changed(device, events) == (device, None::<CursorChange>),
        device is Board && events.key_pressed && !events.pad_pressed && !events.mouse_moved ==> changed(
            device,
            events,
        ) == (device, None::<CursorChange>),
{
}

/// In a list of distinct choices, the choice after the one at place `i` is
/// the one at the next place, going round from the last to the first; the
/// choice before it is the one at the place before, going round from the
/// first to the last.
pub proof fn choice_neighbours<T>(bound: Seq<T>, i: int)
    requires
        0 <= i < bound.len(),
        forall|a: int, b: int| 0 <= a < b < bound.len() ==> bound[a] != bound[b],
    ensures
        choice_after(bound, bound[i]) == bound[if i + 1 < bound.len() {
            i + 1
        } else {
            0
        }],
        choice_before(bound, bound[i]) == bound[if i > 0 {
            i - 1
        } else {
            bound.len() - 1
        }],
{
    let v = bound[i];
    lemma_find_from(bound, v, 0);
    lemma_find_from(bound, v, 1);
    assert(find_from(bound, v, 0) == i);
    if i >= 1 {
        assert(find_from(bound, v, 1) == i);
    } else {
        assert(find_from(bound, v, 1) == -1);
    }
}

/// The image of each gamepad button, under the folder of the glyph set,
/// button by button.
pub proof fn pad_glyph_files()
    ensures
        pad_glyph_file(keycode::GAMEPAD_BUTTON_UNKNOWN) == Some("pad_u.png"),
        pad_glyph_file(keycode::GAMEPAD_BUTTON_LEFT_FACE_UP) == Some("pad_u.png"),
        pad_glyph_file(keycode::GAMEPAD_BUTTON_LEFT_FACE_RIGHT) == Some("pad_r.png"),
        pad_glyph_file(keycode::GAMEPAD_BUTTON_LEFT_FACE_DOWN) == Some("pad_d.png"),
        pad_glyph_file(keycode::GAMEPAD_BUTTON_LEFT_FACE_LEFT) == Some("pad_l.png"),
        pad_glyph_file(keycode::GAMEPAD_BUTTON_RIGHT_FACE_UP) == Some("button_u.png"),
        pad_glyph_file(keycode::GAMEPAD_BUTTON_RIGHT_FACE_RIGHT) == Some("button_r.png"),
        pad_glyph_file(keycode::GAMEPAD_BUTTON_RIGHT_FACE_DOWN) == Some("button_d.png"),
        pad_glyph_file(keycode::GAMEPAD_BUTTON_RIGHT_FACE_LEFT) == Some("button_l.png"),
        pad_glyph_file(keycode::GAMEPAD_BUTTON_LEFT_TRIGGER_1) == Some("l_bumper.png"),
        pad_glyph_file(keycode::GAMEPAD_BUTTON_LEFT_TRIGGER_2) == Some("l_trigger.png"),
        pad_glyph_file(keycode::GAMEPAD_BUTTON_RIGHT_TRIGGER_1) == Some("r_bumper.png"),
        pad_glyph_file(keycode::GAMEPAD_BUTTON_RIGHT_TRIGGER_2) == Some("r_trigger.png"),
        pad_glyph_file(keycode::GAMEPAD_BUTTON_MIDDLE_LEFT) == Some("middle_l.png"),
        pad_glyph_file(keycode::GAMEPAD_BUTTON_MIDDLE) == Some("middle.png"),
        pad_glyph_file(keycode::GAMEPAD_BUTTON_MIDDLE_RIGHT) == Some("middle_r.png"),
        pad_glyph_file(keycode::GAMEPAD_BUTTON_LEFT_THUMB) == Some("l_stick_click.png"),
        pad_glyph_file(keycode::GAMEPAD_BUTTON_RIGHT_THUMB) == Some("r_stick_click.png"),
{
}

} // verus!
