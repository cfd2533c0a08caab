use draw::events::can_compute_frame_geometry;
use draw::decorator::{DecorationArea, WindowEdges};
use draw::events::{
    configure_resizes, frame_buffer_size, frame_fits, frame_geometry, frame_press_action, framed_content_size,
    grown_pool_len, mouse_position_valid, wayland_button, wayland_button_event, x_button_event, Button, Event,
    FrameAction, MouseCursor, MouseInfo, X11WindowState, XInput,
};
use draw::keys::Key;

fn state() -> X11WindowState {
    X11WindowState {
        width: 800,
        height: 600,
        pos_x: 10,
        pos_y: 20,
        mouse_info: MouseInfo { x: 5, y: 6, dx: 0, dy: 0 },
        wm_delete_window: 77,
    }
}

#[test]
fn x11_buttons() {
    assert_eq!(x_button_event(1, true), Event::ButtonPress(Button::MouseLeft));
    assert_eq!(x_button_event(2, true), Event::ButtonPress(Button::MouseMiddle));
    assert_eq!(x_button_event(3, false), Event::ButtonRelease(Button::MouseRight));
    assert_eq!(x_button_event(4, true), Event::ButtonPress(Button::WheelUp));
    assert_eq!(x_button_event(5, false), Event::ButtonRelease(Button::WheelDown));
    assert_eq!(x_button_event(9, true), Event::Empty);
    assert_eq!(x_button_event(0, false), Event::Empty);
}

#[test]
fn raw_motion_updates_relative_motion() {
    let mut s = state();
    let r = s.handle_input(XInput::RawMotion { dx: 3, dy: -4 });
    let mi = MouseInfo { x: 5, y: 6, dx: 3, dy: -4 };
    assert_eq!(r.events, vec![Event::MouseMotion(mi)]);
    assert_eq!(s.mouse_info, mi);
    assert!(!r.size_changed && !r.toggle_fullscreen && !r.destroy_window);
}

#[test]
fn motion_reports_only_changes() {
    let mut s = state();
    s.mouse_info.dx = 2;
    let r = s.handle_input(XInput::Motion { x: 5, y: 6 });
    assert!(r.events.is_empty());
    let r = s.handle_input(XInput::Motion { x: 7, y: 6 });
    let mi = MouseInfo { x: 7, y: 6, dx: 2, dy: 0 };
    assert_eq!(r.events, vec![Event::MouseMotion(mi)]);
    assert_eq!(s.mouse_info, mi);
}

#[test]
fn configure_reports_size_and_position() {
    let mut s = state();
    let r = s.handle_input(XInput::Configure { width: 800, height: 600, x: 10, y: 20 });
    assert!(r.events.is_empty());
    assert!(!r.size_changed);
    let r = s.handle_input(XInput::Configure { width: 640, height: 480, x: 10, y: 20 });
    assert_eq!(r.events, vec![Event::RedimWindow((640, 480))]);
    assert!(r.size_changed);
    assert_eq!((s.width, s.height), (640, 480));
    let r = s.handle_input(XInput::Configure { width: 100, height: 200, x: 1, y: 2 });
    assert_eq!(r.events, vec![Event::RedimWindow((100, 200)), Event::ReposWindow((1, 2))]);
    assert_eq!((s.pos_x, s.pos_y), (1, 2));
    let r = s.handle_input(XInput::Configure { width: 100, height: 200, x: 3, y: 2 });
    assert_eq!(r.events, vec![Event::ReposWindow((3, 2))]);
    assert!(!r.size_changed);
}

#[test]
fn close_requests() {
    let mut s = state();
    let r = s.handle_input(XInput::ClientMessage(77));
    assert_eq!(r.events, vec![Event::CloseWindow]);
    assert!(r.destroy_window);
    let r = s.handle_input(XInput::ClientMessage(78));
    assert_eq!(r.events, vec![Event::CloseWindow]);
    assert!(!r.destroy_window);
}

#[test]
fn keys_and_fullscreen() {
    let mut s = state();
    let r = s.handle_input(XInput::KeyPress(0xFFC8));
    assert_eq!(r.events, vec![Event::KeyPress(Key::F11)]);
    assert!(r.toggle_fullscreen);
    let r = s.handle_input(XInput::KeyPress(0x61));
    assert_eq!(r.events, vec![Event::KeyPress(Key::A)]);
    assert!(!r.toggle_fullscreen);
    let r = s.handle_input(XInput::KeyRelease(0xFFC8));
    assert_eq!(r.events, vec![Event::KeyRelease(Key::F11)]);
    assert!(!r.toggle_fullscreen);
    let r = s.handle_input(XInput::KeyPress(0x12345));
    assert_eq!(r.events, vec![Event::KeyPress(Key::Unknown)]);
    assert_eq!(s, state());
}

#[test]
fn x11_button_inputs_and_other_events() {
    let mut s = state();
    assert_eq!(s.handle_input(XInput::ButtonPress(1)).events, vec![Event::ButtonPress(Button::MouseLeft)]);
    assert_eq!(s.handle_input(XInput::ButtonRelease(8)).events, vec![Event::Empty]);
    assert!(s.handle_input(XInput::Other).events.is_empty());
    assert_eq!(s, state());
}

#[test]
fn cursor_names() {
    assert_eq!(MouseCursor::Arrow.as_c_str(), "default");
    assert_eq!(MouseCursor::Arrow.theme_name(), "arrow");
    assert_eq!(MouseCursor::TextInput.as_c_str(), "xterm");
    assert_eq!(MouseCursor::ResizeNS.theme_name(), "sb_v_double_arrow");
    assert_eq!(MouseCursor::ResizeNWSE.as_c_str(), "bottom_right_corner");
    assert_eq!(MouseCursor::Hand.theme_name(), "hand1");
    assert_eq!(MouseCursor::NotAllowed.as_c_str(), "circle");
}

#[test]
fn frame_buffer_sizes() {
    assert_eq!(frame_buffer_size(800, 600, 4), 1_920_000);
    assert_eq!(frame_buffer_size(800, 600, 0), 0);
    assert!(frame_fits(2, 2, 4, 16));
    assert!(!frame_fits(2, 2, 4, 17));
}

#[test]
fn pointer_positions() {
    assert!(mouse_position_valid(0, 0, 10, 10));
    assert!(mouse_position_valid(9, 9, 10, 10));
    assert!(!mouse_position_valid(10, 0, 10, 10));
    assert!(!mouse_position_valid(-1, 0, 10, 10));
}

#[test]
fn wayland_buttons() {
    assert_eq!(wayland_button(0x110), Button::MouseLeft);
    assert_eq!(wayland_button(0x111), Button::MouseRight);
    assert_eq!(wayland_button(0x112), Button::MouseMiddle);
    assert_eq!(wayland_button(0x151), Button::WheelUp);
    assert_eq!(wayland_button(0x150), Button::WheelDown);
    assert_eq!(wayland_button(0x113), Button::Unknown);
    assert_eq!(wayland_button_event(0x110, Some(true)), Event::ButtonPress(Button::MouseLeft));
    assert_eq!(wayland_button_event(0x111, Some(false)), Event::ButtonRelease(Button::MouseRight));
    assert_eq!(wayland_button_event(0x111, None), Event::Empty);
}

#[test]
fn frame_press_actions() {
    assert_eq!(frame_press_action(DecorationArea::TitleBar), FrameAction::Move);
    assert_eq!(frame_press_action(DecorationArea::Edge(WindowEdges::Top)), FrameAction::Resize(WindowEdges::Top));
    assert_eq!(frame_press_action(DecorationArea::Edge(WindowEdges::Left)), FrameAction::Resize(WindowEdges::Left));
    assert_eq!(frame_press_action(DecorationArea::Edge(WindowEdges::TopLeft)), FrameAction::Nothing);
    assert_eq!(frame_press_action(DecorationArea::CloseButton), FrameAction::Nothing);
    assert_eq!(frame_press_action(DecorationArea::NoDecoration), FrameAction::Nothing);
}

#[test]
fn wayland_frame_geometry() {
    let g = frame_geometry((800, 600), 50, 10);
    assert_eq!((g.width, g.height), (820, 670));
    assert_eq!((g.offset_x, g.offset_y), (-10, -60));
    assert_eq!((g.content_x, g.content_y, g.content_width, g.content_height), (10, 60, 800, 600));
    assert_eq!(g.pool_len, 820 * 670 * 4);
}

#[test]
fn shared_pool_only_grows() {
    assert_eq!(grown_pool_len(100, 10, 10), Some(400));
    assert_eq!(grown_pool_len(400, 10, 10), None);
    assert_eq!(grown_pool_len(1000, 10, 10), None);
}

#[test]
fn configure_sizes() {
    assert!(configure_resizes(640, 480, 800, 600));
    assert!(!configure_resizes(800, 600, 800, 600));
    assert!(!configure_resizes(0, 480, 800, 600));
    assert!(!configure_resizes(640, 0, 800, 600));
    assert_eq!(framed_content_size(820, 670, 50, 10), (800, 600));
}

#[test]
fn frame_geometry_checks() {
    assert!(can_compute_frame_geometry(800, 600, 50, 10));
    assert!(!can_compute_frame_geometry(40000, 40000, 50, 10));
    assert!(!can_compute_frame_geometry(i32::MAX, 1, 0, 1));
}
