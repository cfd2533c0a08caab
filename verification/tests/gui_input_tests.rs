use draw::events::{Button, Event, MouseCursor, MouseInfo};
use draw::gui_input::{gui_key, gui_mouse_change, gui_mouse_summary, GuiKey, CursorSync, CursorUpdate, GuiMouseChange};
use draw::keys::Key;

#[test]
fn mouse_changes_of_events() {
    let mi = MouseInfo { x: 3, y: 4, dx: 1, dy: 1 };
    assert_eq!(gui_mouse_change(Event::MouseMotion(mi)), GuiMouseChange::Position(3, 4));
    assert_eq!(gui_mouse_change(Event::ButtonPress(Button::MouseLeft)), GuiMouseChange::Button(0, true));
    assert_eq!(gui_mouse_change(Event::ButtonPress(Button::MouseRight)), GuiMouseChange::Button(1, true));
    assert_eq!(gui_mouse_change(Event::ButtonRelease(Button::MouseMiddle)), GuiMouseChange::Button(2, false));
    assert_eq!(gui_mouse_change(Event::ButtonPress(Button::WheelUp)), GuiMouseChange::Wheel(1));
    assert_eq!(gui_mouse_change(Event::ButtonPress(Button::WheelDown)), GuiMouseChange::Wheel(-1));
    assert_eq!(gui_mouse_change(Event::ButtonRelease(Button::WheelDown)), GuiMouseChange::Nothing);
    assert_eq!(gui_mouse_change(Event::ButtonPress(Button::Unknown)), GuiMouseChange::Nothing);
    assert_eq!(gui_mouse_change(Event::KeyPress(Key::A)), GuiMouseChange::Nothing);
    assert_eq!(gui_mouse_change(Event::CloseWindow), GuiMouseChange::Nothing);
}

#[test]
fn cursor_changes_are_passed_on_once() {
    let mut s = CursorSync::new();
    let u = s.update(true, Some(MouseCursor::Hand));
    assert_eq!(u, CursorUpdate { hide_native: Some(true), shape: Some(MouseCursor::Hand) });
    let u = s.update(true, Some(MouseCursor::Hand));
    assert_eq!(u, CursorUpdate { hide_native: None, shape: None });
    let u = s.update(false, Some(MouseCursor::Arrow));
    assert_eq!(u, CursorUpdate { hide_native: Some(false), shape: Some(MouseCursor::Arrow) });
    let u = s.update(false, None);
    assert_eq!(u, CursorUpdate { hide_native: None, shape: None });
    assert_eq!(s, CursorSync { hide_native_cursor: false, current: None });
}

#[test]
fn mouse_summary_keeps_the_last_position_and_button_states_and_sums_the_wheel() {
    let events = vec![
        Event::MouseMotion(MouseInfo { x: 1, y: 2, dx: 0, dy: 0 }),
        Event::ButtonPress(Button::MouseLeft),
        Event::ButtonPress(Button::WheelUp),
        Event::KeyPress(Key::A),
        Event::ButtonPress(Button::WheelUp),
        Event::ButtonPress(Button::WheelDown),
        Event::ButtonPress(Button::WheelUp),
        Event::ButtonRelease(Button::MouseLeft),
        Event::ButtonPress(Button::MouseMiddle),
        Event::MouseMotion(MouseInfo { x: 7, y: 9, dx: 6, dy: 7 }),
    ];
    let s = gui_mouse_summary(&events);
    assert_eq!(s.position, Some((7, 9)));
    assert_eq!(s.buttons, vec![Some(false), None, Some(true)]);
    assert_eq!(s.wheel, 2);

    let none = gui_mouse_summary(&vec![Event::CloseWindow]);
    assert_eq!(none.position, None);
    assert_eq!(none.buttons, vec![None, None, None]);
    assert_eq!(none.wheel, 0);
}

#[test]
fn gui_keys_of_keys() {
    assert_eq!(gui_key(Key::A), Some(GuiKey::A));
    assert_eq!(gui_key(Key::Num3), Some(GuiKey::Alpha3));
    assert_eq!(gui_key(Key::KeypadEnter), Some(GuiKey::KeypadEnter));
    assert_eq!(gui_key(Key::F12), Some(GuiKey::F12));
    assert_eq!(gui_key(Key::AppBack), None);
    assert_eq!(gui_key(Key::Unknown), None);
}
