use gauntlet::keycode;
use gauntlet::user::{GlyphKind, Input, LocaleKind};
use gauntlet::window::{
    mouse_glyph, pad_glyph, pick_after, pick_before, CursorChange, Device, DeviceEvents, DeviceResponse,
    KeyState, Layout, Navigation, Prompt, Response, ResponseEvents, Step, StickZone, Wheel, Window,
};

fn nav(up: bool, down: bool, stick: StickZone) -> Navigation {
    Navigation { up, down, stick }
}

fn quiet() -> KeyState {
    KeyState { pressed: false, released: false }
}

fn down() -> KeyState {
    KeyState { pressed: true, released: false }
}

fn up() -> KeyState {
    KeyState { pressed: false, released: true }
}

fn events(accept: KeyState, cancel: KeyState, side_a: KeyState, side_b: KeyState, wheel: Wheel) -> ResponseEvents {
    ResponseEvents { accept, cancel, side_a, side_b, wheel }
}

fn no_change() -> DeviceEvents {
    DeviceEvents { key_pressed: false, mouse_moved: false, mouse_pressed: false, pad_pressed: false }
}

#[test]
fn board_cursor_goes_round() {
    let mut device = Device::Board { index: 0 };
    device.update_index(3, nav(true, false, StickZone::Rest));
    assert_eq!(device, Device::Board { index: 2 });
    device.update_index(3, nav(false, true, StickZone::Rest));
    assert_eq!(device, Device::Board { index: 0 });
    device.update_index(3, nav(false, true, StickZone::Rest));
    assert_eq!(device, Device::Board { index: 1 });
    device.update_index(3, nav(true, true, StickZone::Rest));
    assert_eq!(device, Device::Board { index: 1 });
}

#[test]
fn pad_stick_moves_once_per_push() {
    let mut device = Device::Pad { index: 1, stick: StickZone::Rest };
    device.update_index(4, nav(false, false, StickZone::Down));
    assert_eq!(device, Device::Pad { index: 2, stick: StickZone::Down });
    device.update_index(4, nav(false, false, StickZone::Down));
    assert_eq!(device, Device::Pad { index: 2, stick: StickZone::Down });
    device.update_index(4, nav(false, false, StickZone::Up));
    assert_eq!(device, Device::Pad { index: 1, stick: StickZone::Up });
    device.update_index(4, nav(true, false, StickZone::Rest));
    assert_eq!(device, Device::Pad { index: 0, stick: StickZone::Rest });
}

#[test]
fn mouse_has_no_cursor_index() {
    let mut device = Device::Mouse;
    device.update_index(0, nav(true, true, StickZone::Down));
    assert_eq!(device, Device::Mouse);
    assert!(device.hover(5, true));
    assert!(!device.hover(0, false));
    assert!(Device::Board { index: 2 }.hover(2, false));
    assert!(!Device::Board { index: 2 }.hover(1, true));
}

#[test]
fn device_change_priorities() {
    let board = Device::Board { index: 3 };
    let moved = DeviceEvents { key_pressed: true, mouse_moved: true, mouse_pressed: false, pad_pressed: false };
    assert_eq!(board.poll_change(moved), (Device::Mouse, Some(CursorChange::Show)));
    let pad = DeviceEvents { key_pressed: true, mouse_moved: true, mouse_pressed: true, pad_pressed: true };
    assert_eq!(
        board.poll_change(pad),
        (Device::Pad { index: 0, stick: StickZone::Rest }, Some(CursorChange::Hide))
    );
    let key = DeviceEvents { key_pressed: true, mouse_moved: false, mouse_pressed: false, pad_pressed: false };
    assert_eq!(board.poll_change(key), (board, None));
    assert_eq!(Device::Mouse.poll_change(key), (Device::Board { index: 0 }, Some(CursorChange::Hide)));
    let moved_only = DeviceEvents { key_pressed: false, mouse_moved: true, mouse_pressed: false, pad_pressed: false };
    assert_eq!(
        Device::Pad { index: 1, stick: StickZone::Up }.poll_change(moved_only),
        (Device::Pad { index: 1, stick: StickZone::Up }, None)
    );
    assert_eq!(Device::Mouse.poll_change(no_change()), (Device::Mouse, None));
}

#[test]
fn response_takes_first_table_entry() {
    let board = Device::Board { index: 0 };
    assert_eq!(
        board.response(events(up(), down(), quiet(), quiet(), Wheel::Still)),
        Some((DeviceResponse::Accept, false))
    );
    assert_eq!(
        board.response(events(quiet(), quiet(), down(), down(), Wheel::Still)),
        Some((DeviceResponse::SideA, true))
    );
    assert_eq!(board.response(events(quiet(), quiet(), quiet(), quiet(), Wheel::Forward)), None);
    assert_eq!(
        Device::Mouse.response(events(quiet(), quiet(), down(), quiet(), Wheel::Forward)),
        Some((DeviceResponse::SideB, true))
    );
    assert_eq!(
        Device::Mouse.response(events(quiet(), quiet(), quiet(), quiet(), Wheel::Backward)),
        Some((DeviceResponse::SideA, true))
    );
    assert_eq!(
        Device::Mouse.response(events(quiet(), down(), quiet(), quiet(), Wheel::Backward)),
        Some((DeviceResponse::Cancel, true))
    );
}

#[test]
fn escape_by_device() {
    assert!(Device::Mouse.escape(true, false));
    assert!(!Device::Board { index: 0 }.escape(false, true));
    assert!(Device::Pad { index: 0, stick: StickZone::Rest }.escape(false, true));
    assert!(!Device::Pad { index: 0, stick: StickZone::Rest }.escape(true, false));
}

#[test]
fn glyph_prompts() {
    assert!(matches!(Device::Board { index: 0 }.glyph_response(DeviceResponse::Accept), Prompt::Text("ENTER")));
    assert!(matches!(Device::Board { index: 0 }.glyph_response(DeviceResponse::SideB), Prompt::Text("<- | ->")));
    assert!(matches!(
        Device::Mouse.glyph_response(DeviceResponse::Cancel),
        Prompt::Image("data/video/glyph/mouse/button_r.png")
    ));
    assert!(matches!(
        Device::Pad { index: 0, stick: StickZone::Rest }.glyph_response(DeviceResponse::SideA),
        Prompt::Pair("data/video/glyph/play_station/pad_l.png", "data/video/glyph/play_station/pad_r.png")
    ));
    assert_eq!(mouse_glyph(keycode::MOUSE_BUTTON_MIDDLE), Some("button_m.png"));
    assert_eq!(mouse_glyph(keycode::MOUSE_BUTTON_FORWARD), Some("button_l.png"));
    assert_eq!(mouse_glyph(7), None);
    assert_eq!(pad_glyph(keycode::GAMEPAD_BUTTON_LEFT_TRIGGER_2), Some("l_trigger.png"));
    assert_eq!(pad_glyph(keycode::GAMEPAD_BUTTON_RIGHT_THUMB), Some("r_stick_click.png"));
    assert_eq!(pad_glyph(18), None);
}

#[test]
fn response_flags() {
    let accept = Response { hover: true, focus: false, device: Some((DeviceResponse::Accept, true)) };
    assert!(accept.accept());
    assert!(!accept.cancel());
    let released = Response { hover: true, focus: false, device: Some((DeviceResponse::Accept, false)) };
    assert!(!released.accept());
    let side = Response { hover: true, focus: false, device: Some((DeviceResponse::SideB, true)) };
    assert!(side.side_b());
    assert!(!side.side_a());
    let none = Response::default();
    assert!(!none.hover && !none.focus && none.device.is_none());
}

#[test]
fn window_response_follows_focus() {
    let mut window = Window::default();
    window.device = Device::Board { index: 1 };
    window.index = 1;
    let pressed = events(down(), quiet(), quiet(), quiet(), Wheel::Still);
    let response = window.response(false, pressed);
    assert!(response.hover && !response.focus);
    assert_eq!(response.device, Some((DeviceResponse::Accept, true)));
    window.focus = Some(0);
    let response = window.response(false, pressed);
    assert!(!response.hover && !response.focus && response.device.is_none());
    window.index = 0;
    let response = window.response(false, pressed);
    assert!(response.hover && response.focus);
}

#[test]
fn toggle_flips_on_accept() {
    let mut window = Window::default();
    let mut value = false;
    let accept = Response { hover: true, focus: false, device: Some((DeviceResponse::Accept, true)) };
    window.toggle(&accept, &mut value);
    assert!(value);
    assert_eq!(window.index, 1);
    window.toggle(&Response::default(), &mut value);
    assert!(value);
    assert_eq!(window.index, 2);
}

#[test]
fn slider_mouse_focus_cycle() {
    let mut window = Window::default();
    window.index = 4;
    let accept = Response { hover: true, focus: false, device: Some((DeviceResponse::Accept, true)) };
    let moved = window.slider(&accept);
    assert_eq!(window.focus, Some(4));
    assert!(!moved.follow && !moved.clamp && moved.step == Step::Keep);
    window.index = 4;
    let held = Response { hover: true, focus: true, device: Some((DeviceResponse::SideB, true)) };
    let moved = window.slider(&held);
    assert!(moved.follow && moved.clamp && moved.step == Step::More);
    window.index = 4;
    let released = Response { hover: true, focus: true, device: Some((DeviceResponse::Accept, false)) };
    let moved = window.slider(&released);
    assert_eq!(window.focus, None);
    assert!(!moved.follow && !moved.clamp && moved.step == Step::Keep);
}

#[test]
fn slider_keyboard_steps() {
    let mut window = Window::default();
    window.device = Device::Board { index: 0 };
    let less = Response { hover: true, focus: false, device: Some((DeviceResponse::SideA, true)) };
    let moved = window.slider(&less);
    assert!(!moved.follow && moved.clamp && moved.step == Step::Less);
    assert_eq!(window.focus, None);
    assert_eq!(window.index, 1);
}

#[test]
fn switch_goes_round() {
    let bound = [GlyphKind::PlayStation, GlyphKind::Xbox, GlyphKind::Nintendo];
    let mut window = Window::default();
    window.device = Device::Board { index: 0 };
    let mut value = GlyphKind::Nintendo;
    let forth = Response { hover: true, focus: false, device: Some((DeviceResponse::SideB, true)) };
    window.switch(&forth, &mut value, &bound);
    assert_eq!(value, GlyphKind::PlayStation);
    let back = Response { hover: true, focus: false, device: Some((DeviceResponse::SideA, true)) };
    window.switch(&back, &mut value, &bound);
    assert_eq!(value, GlyphKind::Nintendo);
    window.switch(&back, &mut value, &bound);
    assert_eq!(value, GlyphKind::Xbox);
    let mut mouse_window = Window::default();
    let mut language = LocaleKind::English;
    mouse_window.switch(&back, &mut language, &[LocaleKind::English, LocaleKind::Spanish]);
    assert_eq!(language, LocaleKind::English);
    let accept = Response { hover: true, focus: false, device: Some((DeviceResponse::Accept, true)) };
    mouse_window.switch(&accept, &mut language, &[LocaleKind::English, LocaleKind::Spanish]);
    assert_eq!(language, LocaleKind::Spanish);
    assert_eq!(mouse_window.index, 2);
}

#[test]
fn pick_neighbours() {
    let bound = [LocaleKind::English, LocaleKind::Spanish];
    assert_eq!(pick_after(&bound, LocaleKind::Spanish), LocaleKind::English);
    assert_eq!(pick_before(&bound, LocaleKind::English), LocaleKind::Spanish);
    assert_eq!(pick_before(&bound, LocaleKind::Spanish), LocaleKind::English);
}

#[test]
fn action_rebinds_while_focused() {
    let mut window = Window::default();
    window.index = 2;
    let mut value = Input::new_board(keycode::KEY_W);
    let accept = Response { hover: true, focus: false, device: Some((DeviceResponse::Accept, true)) };
    window.action(&accept, &mut value, None, None, None);
    assert_eq!(window.focus, Some(2));
    assert_eq!(value.key(), keycode::KEY_W);
    window.index = 2;
    let focused = Response { hover: true, focus: true, device: None };
    window.action(&focused, &mut value, None, None, None);
    assert_eq!(window.focus, Some(2));
    window.index = 2;
    window.action(&focused, &mut value, Some(keycode::KEY_Q), Some(keycode::MOUSE_BUTTON_MIDDLE), None);
    assert_eq!(window.focus, None);
    assert!(matches!(value, Input::Mouse { key: 2, press: false, release: false }));
}

#[test]
fn window_close_moves_cursor_then_device() {
    let mut window = Window::default();
    window.device = Device::Board { index: 2 };
    window.index = 3;
    let cursor = window.close(nav(false, true, StickZone::Rest), no_change());
    assert_eq!(cursor, None);
    assert_eq!(window.device, Device::Board { index: 0 });
    let moved = DeviceEvents { key_pressed: false, mouse_moved: true, mouse_pressed: false, pad_pressed: false };
    let cursor = window.close(nav(false, false, StickZone::Rest), moved);
    assert_eq!(cursor, Some(CursorChange::Show));
    assert_eq!(window.device, Device::Mouse);
    window.begin();
    assert_eq!(window.index, 0);
}

#[test]
fn layout_changes() {
    let mut window = Window::default();
    window.index = 5;
    let mut slot = None;
    Layout::change_layout(&mut window, &mut slot, Some(Layout::Setup));
    assert_eq!(window.index, 0);
    assert_eq!(slot, Some(Layout::Setup));
    assert_eq!(Layout::main_choice(true, false, true), Some(Layout::Close));
    assert_eq!(Layout::main_choice(false, false, false), None);
    assert_eq!(Layout::begin_choice(false), Some(Layout::Zoom));
    assert_eq!(Layout::begin_choice(true), None);
    assert_eq!(
        Layout::layout_back(Some((DeviceResponse::Cancel, true)), None, None),
        Some((None, true))
    );
    assert_eq!(
        Layout::layout_back(Some((DeviceResponse::Cancel, true)), None, Some(Layout::Main)),
        Some((Some(Layout::Main), false))
    );
    assert_eq!(Layout::layout_back(Some((DeviceResponse::Cancel, true)), Some(1), None), None);
    assert_eq!(Layout::layout_back(Some((DeviceResponse::Cancel, false)), None, None), None);
    assert_eq!(Layout::escape_layout(None, true), Some(Layout::Main));
    assert_eq!(Layout::escape_layout(Some(Layout::Setup), true), None);
}

#[test]
fn single_widget_cursor_stays() {
    let mut device = Device::Board { index: 0 };
    device.update_index(1, nav(true, false, StickZone::Rest));
    assert_eq!(device, Device::Board { index: 0 });
    device.update_index(1, nav(false, true, StickZone::Rest));
    assert_eq!(device, Device::Board { index: 0 });
}

#[test]
fn empty_choice_list_keeps_value() {
    let bound: [LocaleKind; 0] = [];
    assert_eq!(pick_after(&bound, LocaleKind::Spanish), LocaleKind::Spanish);
    assert_eq!(pick_before(&bound, LocaleKind::English), LocaleKind::English);
}

#[test]
fn cursor_fits_at_the_largest_indices() {
    let board = Device::Board { index: usize::MAX - 1 };
    assert!(board.cursor_fits(usize::MAX, nav(false, true, StickZone::Rest)));
    let mut moved = board;
    moved.update_index(usize::MAX, nav(false, true, StickZone::Rest));
    assert_eq!(moved, Device::Board { index: 0 });
    let last = Device::Board { index: usize::MAX };
    assert!(!last.cursor_fits(usize::MAX, nav(false, true, StickZone::Rest)));
    assert!(last.cursor_fits(usize::MAX, nav(true, true, StickZone::Rest)));
    assert!(!Device::Board { index: 0 }.cursor_fits(0, nav(false, false, StickZone::Rest)));
    assert!(Device::Mouse.cursor_fits(0, nav(true, true, StickZone::Down)));
    let pad = Device::Pad { index: usize::MAX - 1, stick: StickZone::Rest };
    assert!(pad.cursor_fits(usize::MAX, nav(false, false, StickZone::Down)));
    assert!(!pad.cursor_fits(usize::MAX, nav(false, true, StickZone::Down)));
    assert!(pad.cursor_fits(usize::MAX, nav(true, true, StickZone::Down)));
}
