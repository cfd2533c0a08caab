use vstd::prelude::*;

use crate::events::{Button, Event, MouseCursor};
use crate::keys::{Key, KeyMeaning, key_meaning};

verus! {

/// What a window event changes in the mouse state of the user interface.
#[derive(Clone, Copy, Debug, PartialEq, Eq, Structural)]
pub enum GuiMouseChange {
    /// The pointer moved to this position.
    Position(i32, i32),
    /// The button with this index (left 0, right 1, middle 2) went down
    /// (`true`) or up (`false`).
    Button(usize, bool),
    /// The wheel turned by this many notches, up being positive.
    Wheel(i32),
    Nothing,
}

/// Index of a mouse button in the user interface, or `None` for the wheel
/// and unknown buttons.
pub open spec fn gui_button_index(b: Button) -> Option<usize> {
    match b {
        Button::MouseLeft => Some(0),
        Button::MouseRight => Some(1),
        Button::MouseMiddle => Some(2),
        _ => None,
    }
}

/// The change an event makes to the mouse state of the user interface; a
/// turn of the wheel counts on press only.
pub open spec fn gui_mouse_effect(e: Event) -> GuiMouseChange {
    match e {
        Event::MouseMotion(mi) => GuiMouseChange::Position(mi.x, mi.y),
        Event::ButtonPress(b) => match gui_button_index(b) {
            Some(i) => GuiMouseChange::Button(i, true),
            None => match b {
                Button::WheelUp => GuiMouseChange::Wheel(1i32),
                Button::WheelDown => GuiMouseChange::Wheel(-1i32),
                _ => GuiMouseChange::Nothing,
            },
        },
        Event::ButtonRelease(b) => match gui_button_index(b) {
            Some(i) => GuiMouseChange::Button(i, false),
            None => GuiMouseChange::Nothing,
        },
        _ => GuiMouseChange::Nothing,
    }
}

fn button_index(b: Button) -> (i: Option<usize>)
    ensures
        i == gui_button_index(b),
{
    match b {
        Button::MouseLeft => Some(0),
        Button::MouseRight => Some(1),
        Button::MouseMiddle => Some(2),
        _ => None,
    }
}

/// The change an event makes to the mouse state of the user interface.
pub fn gui_mouse_change(e: Event) -> (c: GuiMouseChange)
    ensures
        c == gui_mouse_effect(e),
{
    match e {
        Event::MouseMotion(mi) => GuiMouseChange::Position(mi.x, mi.y),
        Event::ButtonPress(b) => match button_index(b) {
            Some(i) => GuiMouseChange::Button(i, true),
            None => match b {
                Button::WheelUp => GuiMouseChange::Wheel(1),
                Button::WheelDown => GuiMouseChange::Wheel(-1),
                _ => GuiMouseChange::Nothing,
            },
        },
        Event::ButtonRelease(b) => match button_index(b) {
            Some(i) => GuiMouseChange::Button(i, false),
            None => GuiMouseChange::Nothing,
        },
        _ => GuiMouseChange::Nothing,
    }
}

/// What a list of events changes in the mouse state of the user interface,
/// as plain values.
pub struct MouseSummaryView {
    pub position: Option<(i32, i32)>,
    pub buttons: Seq<Option<bool>>,
    pub wheel: int,
}

/// What the events change, applied in order: the last position the pointer
/// moved to, the last state each of the three buttons went to, and the sum of
/// the wheel turns.
pub open spec fn mouse_summary(events: Seq<Event>) -> MouseSummaryView
    decreases events.len(),
{
    if events.len() == 0 {
        MouseSummaryView { position: None, buttons: seq![None, None, None], wheel: 0 }
    } else {
        let s = mouse_summary(events.drop_last());
        match gui_mouse_effect(events.last()) {
            GuiMouseChange::Position(x, y) => MouseSummaryView { position: Some((x, y)), ..s },
            GuiMouseChange::Button(i, down) => MouseSummaryView { buttons: s.buttons.update(i as int, Some(down)), ..s },
            GuiMouseChange::Wheel(n) => MouseSummaryView { wheel: s.wheel + n, ..s },
            GuiMouseChange::Nothing => s,
        }
    }
}

/// How many times the button was pressed among the events.
pub open spec fn press_count(events: Seq<Event>, b: Button) -> int
    decreases events.len(),
{
    if events.len() == 0 {
        0
    } else {
        press_count(events.drop_last(), b) + if events.last() == Event::ButtonPress(b) {
            1int
        } else {
            0int
        }
    }
}

/// Whether the button is down after the events, as far as they tell:
/// `Some(true)` when its last press or release was a press, `Some(false)`
/// when it was a release, `None` when there was neither.
pub open spec fn last_button_state(events: Seq<Event>, b: Button) -> Option<bool>
    decreases events.len(),
{
    if events.len() == 0 {
        None
    } else if events.last() == Event::ButtonPress(b) {
        Some(true)
    } else if events.last() == Event::ButtonRelease(b) {
        Some(false)
    } else {
        last_button_state(events.drop_last(), b)
    }
}

/// Where the last motion among the events left the pointer, if any.
pub open spec fn last_pointer_position(events: Seq<Event>) -> Option<(i32, i32)>
    decreases events.len(),
{
    if events.len() == 0 {
        None
    } else {
        match events.last() {
            Event::MouseMotion(mi) => Some((mi.x, mi.y)),
            _ => last_pointer_position(events.drop_last()),
        }
    }
}

/// Releasing a button never turns the wheel, and pressing a button other
/// than the two wheel buttons never does either.
pub proof fn law_only_wheel_presses_turn_the_wheel(b: Button)
    ensures
        !(gui_mouse_effect(Event::ButtonRelease(b)) is Wheel),
        gui_mouse_effect(Event::ButtonPress(b)) is Wheel ==> (b == Button::WheelUp || b == Button::WheelDown),
{
}

/// What the user interface learns from a list of events: the pointer is
/// where the last motion left it, each of the left, right and middle buttons
/// is in the state its last press or release left it, and the wheel turned
/// by the number of presses of the up wheel button less those of the down
/// one.
pub proof fn law_mouse_summary_follows_events(events: Seq<Event>)
    ensures
        mouse_summary(events).position == last_pointer_position(events),
        mouse_summary(events).buttons == seq![
            last_button_state(events, Button::MouseLeft),
            last_button_state(events, Button::MouseRight),
            last_button_state(events, Button::MouseMiddle),
        ],
        mouse_summary(events).wheel == press_count(events, Button::WheelUp) - press_count(events, Button::WheelDown),
    decreases events.len(),
{
    if events.len() > 0 {
        law_mouse_summary_follows_events(events.drop_last());
        let s = mouse_summary(events.drop_last());
        let e = events.last();
        match e {
            Event::ButtonPress(b) => {
                assert(mouse_summary(events).buttons =~= seq![
                    last_button_state(events, Button::MouseLeft),
                    last_button_state(events, Button::MouseRight),
                    last_button_state(events, Button::MouseMiddle),
                ]);
            },
            Event::ButtonRelease(b) => {
                assert(mouse_summary(events).buttons =~= seq![
                    last_button_state(events, Button::MouseLeft),
                    last_button_state(events, Button::MouseRight),
                    last_button_state(events, Button::MouseMiddle),
                ]);
            },
            _ => {},
        }
    }
}

/// What a list of events changes in the mouse state of the user interface:
/// the position to move the pointer to, the state to give each of the three
/// buttons (`None` to leave it), and the number of wheel notches to add.
pub struct GuiMouseSummary {
    pub position: Option<(i32, i32)>,
    pub buttons: Vec<Option<bool>>,
    pub wheel: i128,
}

/// Folds the mouse changes of the events, in order.
pub fn gui_mouse_summary(events: &Vec<Event>) -> (s: GuiMouseSummary)
    ensures
        s.position == mouse_summary(events@).position,
        s.buttons@ == mouse_summary(events@).buttons,
        s.wheel == mouse_summary(events@).wheel,
{
    let mut position: Option<(i32, i32)> = None;
    let mut buttons: Vec<Option<bool>> = vec![None, None, None];
    let mut wheel: i128 = 0;
    let mut i: usize = 0;
    proof {
        assert(events@.take(0) == Seq::<Event>::empty());
    }
    while i < events.len()
        invariant
            i <= events@.len(),
            position == mouse_summary(events@.take(i as int)).position,
            buttons@ == mouse_summary(events@.take(i as int)).buttons,
            buttons@.len() == 3,
            wheel == mouse_summary(events@.take(i as int)).wheel,
            -(i as int) <= wheel <= i,
        decreases events@.len() - i,
    {
        let e = events[i];
        proof {
            assert(events@.take(i + 1).drop_last() == events@.take(i as int));
            assert(events@.take(i + 1).last() == e);
        }
        match gui_mouse_change(e) {
            GuiMouseChange::Position(x, y) => {
                position = Some((x, y));
            },
            GuiMouseChange::Button(b, down) => {
                buttons.set(b, Some(down));
            },
            GuiMouseChange::Wheel(n) => {
                wheel = wheel + n as i128;
            },
            GuiMouseChange::Nothing => {},
        }
        i = i + 1;
    }
    proof {
        assert(events@.take(events@.len() as int) == events@);
    }
    GuiMouseSummary { position, buttons, wheel }
}

/// The keys the user interface knows, named as it names them.
#[derive(Clone, Copy, Debug, PartialEq, Eq, Structural)]
pub enum GuiKey {
    Tab,
    LeftArrow,
    RightArrow,
    UpArrow,
    DownArrow,
    PageUp,
    PageDown,
    Home,
    End,
    Insert,
    Delete,
    Backspace,
    Space,
    Enter,
    Escape,
    Apostrophe,
    Comma,
    Minus,
    Period,
    Slash,
    Semicolon,
    Equal,
    LeftBracket,
    Backslash,
    RightBracket,
    GraveAccent,
    CapsLock,
    ScrollLock,
    NumLock,
    PrintScreen,
    Pause,
    Keypad0,
    Keypad1,
    Keypad2,
    Keypad3,
    Keypad4,
    Keypad5,
    Keypad6,
    Keypad7,
    Keypad8,
    Keypad9,
    KeypadDecimal,
    KeypadDivide,
    KeypadMultiply,
    KeypadSubtract,
    KeypadAdd,
    KeypadEnter,
    KeypadEqual,
    LeftCtrl,
    LeftShift,
    LeftAlt,
    LeftSuper,
    RightCtrl,
    RightShift,
    RightAlt,
    RightSuper,
    Menu,
    Alpha0,
    Alpha1,
    Alpha2,
    Alpha3,
    Alpha4,
    Alpha5,
    Alpha6,
    Alpha7,
    Alpha8,
    Alpha9,
    A,
    B,
    C,
    D,
    E,
    F,
    G,
    H,
    I,
    J,
    K,
    L,
    M,
    N,
    O,
    P,
    Q,
    R,
    S,
    T,
    U,
    V,
    W,
    X,
    Y,
    Z,
    F1,
    F2,
    F3,
    F4,
    F5,
    F6,
    F7,
    F8,
    F9,
    F10,
    F11,
    F12,
}

/// The key of the user interface that a key stands for: the digit keys of
/// the main block are its `Alpha` keys, and the browser keys and unknown
/// keys stand for none.
pub open spec fn gui_key_of(key: Key) -> Option<GuiKey> {
    match key {
        Key::Tab => Some(GuiKey::Tab),
        Key::LeftArrow => Some(GuiKey::LeftArrow),
        Key::RightArrow => Some(GuiKey::RightArrow),
        Key::UpArrow => Some(GuiKey::UpArrow),
        Key::DownArrow => Some(GuiKey::DownArrow),
        Key::PageUp => Some(GuiKey::PageUp),
        Key::PageDown => Some(GuiKey::PageDown),
        Key::Home => Some(GuiKey::Home),
        Key::End => Some(GuiKey::End),
        Key::Insert => Some(GuiKey::Insert),
        Key::Delete => Some(GuiKey::Delete),
        Key::Backspace => Some(GuiKey::Backspace),
        Key::Space => Some(GuiKey::Space),
        Key::Enter => Some(GuiKey::Enter),
        Key::Escape => Some(GuiKey::Escape),
        Key::Apostrophe => Some(GuiKey::Apostrophe),
        Key::Comma => Some(GuiKey::Comma),
        Key::Minus => Some(GuiKey::Minus),
        Key::Period => Some(GuiKey::Period),
        Key::Slash => Some(GuiKey::Slash),
        Key::Semicolon => Some(GuiKey::Semicolon),
        Key::Equal => Some(GuiKey::Equal),
        Key::LeftBracket => Some(GuiKey::LeftBracket),
        Key::Backslash => Some(GuiKey::Backslash),
        Key::RightBracket => Some(GuiKey::RightBracket),
        Key::GraveAccent => Some(GuiKey::GraveAccent),
        Key::CapsLock => Some(GuiKey::CapsLock),
        Key::ScrollLock => Some(GuiKey::ScrollLock),
        Key::NumLock => Some(GuiKey::NumLock),
        Key::PrintScreen => Some(GuiKey::PrintScreen),
        Key::Pause => Some(GuiKey::Pause),
        Key::Keypad0 => Some(GuiKey::Keypad0),
        Key::Keypad1 => Some(GuiKey::Keypad1),
        Key::Keypad2 => Some(GuiKey::Keypad2),
        Key::Keypad3 => Some(GuiKey::Keypad3),
        Key::Keypad4 => Some(GuiKey::Keypad4),
        Key::Keypad5 => Some(GuiKey::Keypad5),
        Key::Keypad6 => Some(GuiKey::Keypad6),
        Key::Keypad7 => Some(GuiKey::Keypad7),
        Key::Keypad8 => Some(GuiKey::Keypad8),
        Key::Keypad9 => Some(GuiKey::Keypad9),
        Key::KeypadDecimal => Some(GuiKey::KeypadDecimal),
        Key::KeypadDivide => Some(GuiKey::KeypadDivide),
        Key::KeypadMultiply => Some(GuiKey::KeypadMultiply),
        Key::KeypadSubtract => Some(GuiKey::KeypadSubtract),
        Key::KeypadAdd => Some(GuiKey::KeypadAdd),
        Key::KeypadEnter => Some(GuiKey::KeypadEnter),
        Key::KeypadEqual => Some(GuiKey::KeypadEqual),
        Key::LeftCtrl => Some(GuiKey::LeftCtrl),
        Key::LeftShift => Some(GuiKey::LeftShift),
        Key::LeftAlt => Some(GuiKey::LeftAlt),
        Key::LeftSuper => Some(GuiKey::LeftSuper),
        Key::RightCtrl => Some(GuiKey::RightCtrl),
        Key::RightShift => Some(GuiKey::RightShift),
        Key::RightAlt => Some(GuiKey::RightAlt),
        Key::RightSuper => Some(GuiKey::RightSuper),
        Key::Menu => Some(GuiKey::Menu),
        Key::Num0 => Some(GuiKey::Alpha0),
        Key::Num1 => Some(GuiKey::Alpha1),
        Key::Num2 => Some(GuiKey::Alpha2),
        Key::Num3 => Some(GuiKey::Alpha3),
        Key::Num4 => Some(GuiKey::Alpha4),
        Key::Num5 => Some(GuiKey::Alpha5),
        Key::Num6 => Some(GuiKey::Alpha6),
        Key::Num7 => Some(GuiKey::Alpha7),
        Key::Num8 => Some(GuiKey::Alpha8),
        Key::Num9 => Some(GuiKey::Alpha9),
        Key::A => Some(GuiKey::A),
        Key::B => Some(GuiKey::B),
        Key::C => Some(GuiKey::C),
        Key::D => Some(GuiKey::D),
        Key::E => Some(GuiKey::E),
        Key::F => Some(GuiKey::F),
        Key::G => Some(GuiKey::G),
        Key::H => Some(GuiKey::H),
        Key::I => Some(GuiKey::I),
        Key::J => Some(GuiKey::J),
        Key::K => Some(GuiKey::K),
        Key::L => Some(GuiKey::L),
        Key::M => Some(GuiKey::M),
        Key::N => Some(GuiKey::N),
        Key::O => Some(GuiKey::O),
        Key::P => Some(GuiKey::P),
        Key::Q => Some(GuiKey::Q),
        Key::R => Some(GuiKey::R),
        Key::S => Some(GuiKey::S),
        Key::T => Some(GuiKey::T),
        Key::U => Some(GuiKey::U),
        Key::V => Some(GuiKey::V),
        Key::W => Some(GuiKey::W),
        Key::X => Some(GuiKey::X),
        Key::Y => Some(GuiKey::Y),
        Key::Z => Some(GuiKey::Z),
        Key::F1 => Some(GuiKey::F1),
        Key::F2 => Some(GuiKey::F2),
        Key::F3 => Some(GuiKey::F3),
        Key::F4 => Some(GuiKey::F4),
        Key::F5 => Some(GuiKey::F5),
        Key::F6 => Some(GuiKey::F6),
        Key::F7 => Some(GuiKey::F7),
        Key::F8 => Some(GuiKey::F8),
        Key::F9 => Some(GuiKey::F9),
        Key::F10 => Some(GuiKey::F10),
        Key::F11 => Some(GuiKey::F11),
        Key::F12 => Some(GuiKey::F12),
        _ => None,
    }
}

/// The key of the user interface that a key stands for.
pub fn gui_key(key: Key) -> (g: Option<GuiKey>)
    ensures
        g == gui_key_of(key),
{
    match key {
        Key::Tab => Some(GuiKey::Tab),
        Key::LeftArrow => Some(GuiKey::LeftArrow),
        Key::RightArrow => Some(GuiKey::RightArrow),
        Key::UpArrow => Some(GuiKey::UpArrow),
        Key::DownArrow => Some(GuiKey::DownArrow),
        Key::PageUp => Some(GuiKey::PageUp),
        Key::PageDown => Some(GuiKey::PageDown),
        Key::Home => Some(GuiKey::Home),
        Key::End => Some(GuiKey::End),
        Key::Insert => Some(GuiKey::Insert),
        Key::Delete => Some(GuiKey::Delete),
        Key::Backspace => Some(GuiKey::Backspace),
        Key::Space => Some(GuiKey::Space),
        Key::Enter => Some(GuiKey::Enter),
        Key::Escape => Some(GuiKey::Escape),
        Key::Apostrophe => Some(GuiKey::Apostrophe),
        Key::Comma => Some(GuiKey::Comma),
        Key::Minus => Some(GuiKey::Minus),
        Key::Period => Some(GuiKey::Period),
        Key::Slash => Some(GuiKey::Slash),
        Key::Semicolon => Some(GuiKey::Semicolon),
        Key::Equal => Some(GuiKey::Equal),
        Key::LeftBracket => Some(GuiKey::LeftBracket),
        Key::Backslash => Some(GuiKey::Backslash),
        Key::RightBracket => Some(GuiKey::RightBracket),
        Key::GraveAccent => Some(GuiKey::GraveAccent),
        Key::CapsLock => Some(GuiKey::CapsLock),
        Key::ScrollLock => Some(GuiKey::ScrollLock),
        Key::NumLock => Some(GuiKey::NumLock),
        Key::PrintScreen => Some(GuiKey::PrintScreen),
        Key::Pause => Some(GuiKey::Pause),
        Key::Keypad0 => Some(GuiKey::Keypad0),
        Key::Keypad1 => Some(GuiKey::Keypad1),
        Key::Keypad2 => Some(GuiKey::Keypad2),
        Key::Keypad3 => Some(GuiKey::Keypad3),
        Key::Keypad4 => Some(GuiKey::Keypad4),
        Key::Keypad5 => Some(GuiKey::Keypad5),
        Key::Keypad6 => Some(GuiKey::Keypad6),
        Key::Keypad7 => Some(GuiKey::Keypad7),
        Key::Keypad8 => Some(GuiKey::Keypad8),
        Key::Keypad9 => Some(GuiKey::Keypad9),
        Key::KeypadDecimal => Some(GuiKey::KeypadDecimal),
        Key::KeypadDivide => Some(GuiKey::KeypadDivide),
        Key::KeypadMultiply => Some(GuiKey::KeypadMultiply),
        Key::KeypadSubtract => Some(GuiKey::KeypadSubtract),
        Key::KeypadAdd => Some(GuiKey::KeypadAdd),
        Key::KeypadEnter => Some(GuiKey::KeypadEnter),
        Key::KeypadEqual => Some(GuiKey::KeypadEqual),
        Key::LeftCtrl => Some(GuiKey::LeftCtrl),
        Key::LeftShift => Some(GuiKey::LeftShift),
        Key::LeftAlt => Some(GuiKey::LeftAlt),
        Key::LeftSuper => Some(GuiKey::LeftSuper),
        Key::RightCtrl => Some(GuiKey::RightCtrl),
        Key::RightShift => Some(GuiKey::RightShift),
        Key::RightAlt => Some(GuiKey::RightAlt),
        Key::RightSuper => Some(GuiKey::RightSuper),
        Key::Menu => Some(GuiKey::Menu),
        Key::Num0 => Some(GuiKey::Alpha0),
        Key::Num1 => Some(GuiKey::Alpha1),
        Key::Num2 => Some(GuiKey::Alpha2),
        Key::Num3 => Some(GuiKey::Alpha3),
        Key::Num4 => Some(GuiKey::Alpha4),
        Key::Num5 => Some(GuiKey::Alpha5),
        Key::Num6 => Some(GuiKey::Alpha6),
        Key::Num7 => Some(GuiKey::Alpha7),
        Key::Num8 => Some(GuiKey::Alpha8),
        Key::Num9 => Some(GuiKey::Alpha9),
        Key::A => Some(GuiKey::A),
        Key::B => Some(GuiKey::B),
        Key::C => Some(GuiKey::C),
        Key::D => Some(GuiKey::D),
        Key::E => Some(GuiKey::E),
        Key::F => Some(GuiKey::F),
        Key::G => Some(GuiKey::G),
        Key::H => Some(GuiKey::H),
        Key::I => Some(GuiKey::I),
        Key::J => Some(GuiKey::J),
        Key::K => Some(GuiKey::K),
        Key::L => Some(GuiKey::L),
        Key::M => Some(GuiKey::M),
        Key::N => Some(GuiKey::N),
        Key::O => Some(GuiKey::O),
        Key::P => Some(GuiKey::P),
        Key::Q => Some(GuiKey::Q),
        Key::R => Some(GuiKey::R),
        Key::S => Some(GuiKey::S),
        Key::T => Some(GuiKey::T),
        Key::U => Some(GuiKey::U),
        Key::V => Some(GuiKey::V),
        Key::W => Some(GuiKey::W),
        Key::X => Some(GuiKey::X),
        Key::Y => Some(GuiKey::Y),
        Key::Z => Some(GuiKey::Z),
        Key::F1 => Some(GuiKey::F1),
        Key::F2 => Some(GuiKey::F2),
        Key::F3 => Some(GuiKey::F3),
        Key::F4 => Some(GuiKey::F4),
        Key::F5 => Some(GuiKey::F5),
        Key::F6 => Some(GuiKey::F6),
        Key::F7 => Some(GuiKey::F7),
        Key::F8 => Some(GuiKey::F8),
        Key::F9 => Some(GuiKey::F9),
        Key::F10 => Some(GuiKey::F10),
        Key::F11 => Some(GuiKey::F11),
        Key::F12 => Some(GuiKey::F12),
        _ => None,
    }
}

/// What each key of the user interface stands for, in the terms of
/// `key_meaning`: its digit keys are named `Alpha0` to `Alpha9`.
pub open spec fn gui_key_meaning(g: GuiKey) -> KeyMeaning {
    match g {
        GuiKey::Tab => KeyMeaning::Named("Tab"@),
        GuiKey::LeftArrow => KeyMeaning::Arrow(-1, 0),
        GuiKey::RightArrow => KeyMeaning::Arrow(1, 0),
        GuiKey::UpArrow => KeyMeaning::Arrow(0, 1),
        GuiKey::DownArrow => KeyMeaning::Arrow(0, -1),
        GuiKey::PageUp => KeyMeaning::Named("PageUp"@),
        GuiKey::PageDown => KeyMeaning::Named("PageDown"@),
        GuiKey::Home => KeyMeaning::Named("Home"@),
        GuiKey::End => KeyMeaning::Named("End"@),
        GuiKey::Insert => KeyMeaning::Named("Insert"@),
        GuiKey::Delete => KeyMeaning::Named("Delete"@),
        GuiKey::Backspace => KeyMeaning::Named("Backspace"@),
        GuiKey::Space => KeyMeaning::Char(' '),
        GuiKey::Enter => KeyMeaning::Named("Enter"@),
        GuiKey::Escape => KeyMeaning::Named("Escape"@),
        GuiKey::Apostrophe => KeyMeaning::Char('\''),
        GuiKey::Comma => KeyMeaning::Char(','),
        GuiKey::Minus => KeyMeaning::Char('-'),
        GuiKey::Period => KeyMeaning::Char('.'),
        GuiKey::Slash => KeyMeaning::Char('/'),
        GuiKey::Semicolon => KeyMeaning::Char(';'),
        GuiKey::Equal => KeyMeaning::Char('='),
        GuiKey::LeftBracket => KeyMeaning::Char('['),
        GuiKey::Backslash => KeyMeaning::Char('\\'),
        GuiKey::RightBracket => KeyMeaning::Char(']'),
        GuiKey::GraveAccent => KeyMeaning::Char('`'),
        GuiKey::CapsLock => KeyMeaning::Named("CapsLock"@),
        GuiKey::ScrollLock => KeyMeaning::Named("ScrollLock"@),
        GuiKey::NumLock => KeyMeaning::Named("NumLock"@),
        GuiKey::PrintScreen => KeyMeaning::Named("PrintScreen"@),
        GuiKey::Pause => KeyMeaning::Named("Pause"@),
        GuiKey::Keypad0 => KeyMeaning::KeypadDigit(0),
        GuiKey::Keypad1 => KeyMeaning::KeypadDigit(1),
        GuiKey::Keypad2 => KeyMeaning::KeypadDigit(2),
        GuiKey::Keypad3 => KeyMeaning::KeypadDigit(3),
        GuiKey::Keypad4 => KeyMeaning::KeypadDigit(4),
        GuiKey::Keypad5 => KeyMeaning::KeypadDigit(5),
        GuiKey::Keypad6 => KeyMeaning::KeypadDigit(6),
        GuiKey::Keypad7 => KeyMeaning::KeypadDigit(7),
        GuiKey::Keypad8 => KeyMeaning::KeypadDigit(8),
        GuiKey::Keypad9 => KeyMeaning::KeypadDigit(9),
        GuiKey::KeypadDecimal => KeyMeaning::Named("KeypadDecimal"@),
        GuiKey::KeypadDivide => KeyMeaning::Named("KeypadDivide"@),
        GuiKey::KeypadMultiply => KeyMeaning::Named("KeypadMultiply"@),
        GuiKey::KeypadSubtract => KeyMeaning::Named("KeypadSubtract"@),
        GuiKey::KeypadAdd => KeyMeaning::Named("KeypadAdd"@),
        GuiKey::KeypadEnter => KeyMeaning::Named("KeypadEnter"@),
        GuiKey::KeypadEqual => KeyMeaning::Named("KeypadEqual"@),
        GuiKey::LeftCtrl => KeyMeaning::Modifier(1, false),
        GuiKey::LeftShift => KeyMeaning::Modifier(0, false),
        GuiKey::LeftAlt => KeyMeaning::Modifier(2, false),
        GuiKey::LeftSuper => KeyMeaning::Modifier(3, false),
        GuiKey::RightCtrl => KeyMeaning::Modifier(1, true),
        GuiKey::RightShift => KeyMeaning::Modifier(0, true),
        GuiKey::RightAlt => KeyMeaning::Modifier(2, true),
        GuiKey::RightSuper => KeyMeaning::Modifier(3, true),
        GuiKey::Menu => KeyMeaning::Named("Menu"@),
        GuiKey::Alpha0 => KeyMeaning::Char('0'),
        GuiKey::Alpha1 => KeyMeaning::Char('1'),
        GuiKey::Alpha2 => KeyMeaning::Char('2'),
        GuiKey::Alpha3 => KeyMeaning::Char('3'),
        GuiKey::Alpha4 => KeyMeaning::Char('4'),
        GuiKey::Alpha5 => KeyMeaning::Char('5'),
        GuiKey::Alpha6 => KeyMeaning::Char('6'),
        GuiKey::Alpha7 => KeyMeaning::Char('7'),
        GuiKey::Alpha8 => KeyMeaning::Char('8'),
        GuiKey::Alpha9 => KeyMeaning::Char('9'),
        GuiKey::A => KeyMeaning::Char('a'),
        GuiKey::B => KeyMeaning::Char('b'),
        GuiKey::C => KeyMeaning::Char('c'),
        GuiKey::D => KeyMeaning::Char('d'),
        GuiKey::E => KeyMeaning::Char('e'),
        GuiKey::F => KeyMeaning::Char('f'),
        GuiKey::G => KeyMeaning::Char('g'),
        GuiKey::H => KeyMeaning::Char('h'),
        GuiKey::I => KeyMeaning::Char('i'),
        GuiKey::J => KeyMeaning::Char('j'),
        GuiKey::K => KeyMeaning::Char('k'),
        GuiKey::L => KeyMeaning::Char('l'),
        GuiKey::M => KeyMeaning::Char('m'),
        GuiKey::N => KeyMeaning::Char('n'),
        GuiKey::O => KeyMeaning::Char('o'),
        GuiKey::P => KeyMeaning::Char('p'),
        GuiKey::Q => KeyMeaning::Char('q'),
        GuiKey::R => KeyMeaning::Char('r'),
        GuiKey::S => KeyMeaning::Char('s'),
        GuiKey::T => KeyMeaning::Char('t'),
        GuiKey::U => KeyMeaning::Char('u'),
        GuiKey::V => KeyMeaning::Char('v'),
        GuiKey::W => KeyMeaning::Char('w'),
        GuiKey::X => KeyMeaning::Char('x'),
        GuiKey::Y => KeyMeaning::Char('y'),
        GuiKey::Z => KeyMeaning::Char('z'),
        GuiKey::F1 => KeyMeaning::Function(1),
        GuiKey::F2 => KeyMeaning::Function(2),
        GuiKey::F3 => KeyMeaning::Function(3),
        GuiKey::F4 => KeyMeaning::Function(4),
        GuiKey::F5 => KeyMeaning::Function(5),
        GuiKey::F6 => KeyMeaning::Function(6),
        GuiKey::F7 => KeyMeaning::Function(7),
        GuiKey::F8 => KeyMeaning::Function(8),
        GuiKey::F9 => KeyMeaning::Function(9),
        GuiKey::F10 => KeyMeaning::Function(10),
        GuiKey::F11 => KeyMeaning::Function(11),
        GuiKey::F12 => KeyMeaning::Function(12),
    }
}

/// A key reaches the user interface as the key that stands for the same
/// thing: the same direction, character, number, modifier or name.  Every
/// arrow, character, function, keypad-digit and modifier key reaches it.
pub proof fn law_gui_key_keeps_meaning(key: Key)
    ensures
        gui_key_of(key) matches Some(g) ==> gui_key_meaning(g) == key_meaning(key),
        !(key_meaning(key) is Named) ==> gui_key_of(key) is Some,
{
}

/// What the window must change about the mouse cursor so that it shows what
/// the user interface asks for.
#[derive(Clone, Copy, Debug, PartialEq, Eq, Structural)]
pub struct CursorUpdate {
    /// `Some(true)` to hide the native cursor, `Some(false)` to show it.
    pub hide_native: Option<bool>,
    /// The shape to give the native cursor.
    pub shape: Option<MouseCursor>,
}

/// The cursor state the window was last told about.
#[derive(Clone, Copy, Debug, PartialEq, Eq, Structural)]
pub struct CursorSync {
    pub hide_native_cursor: bool,
    pub current: Option<MouseCursor>,
}

/// The state after telling the window about the cursor the user interface
/// draws (`draws_cursor`) and wants (`wanted`), and what the window is told:
/// only what changed.
pub open spec fn cursor_step(s: CursorSync, draws_cursor: bool, wanted: Option<MouseCursor>) -> (
    CursorSync,
    CursorUpdate,
) {
    (
        CursorSync { hide_native_cursor: draws_cursor, current: wanted },
        CursorUpdate {
            hide_native: if draws_cursor != s.hide_native_cursor {
                Some(draws_cursor)
            } else {
                None
            },
            shape: if wanted != s.current {
                wanted
            } else {
                None
            },
        },
    )
}

impl CursorSync {
    /// A visible cursor of no particular shape.
    pub fn new() -> (s: CursorSync)
        ensures
            !s.hide_native_cursor,
            s.current == None::<MouseCursor>,
    {
        CursorSync { hide_native_cursor: false, current: None }
    }

    /// Brings the window in line with the user interface, which draws the
    /// cursor itself when `draws_cursor` holds and wants the shape `wanted`:
    /// only what changed since the last call is passed on.
    pub fn update(&mut self, draws_cursor: bool, wanted: Option<MouseCursor>) -> (u: CursorUpdate)
        ensures
            (*final(self), u) == cursor_step(*old(self), draws_cursor, wanted),
    {
        let hide_native = if self.hide_native_cursor != draws_cursor {
            self.hide_native_cursor = draws_cursor;
            Some(draws_cursor)
        } else {
            None
        };
        let changed = match (self.current, wanted) {
            (Some(c), Some(w)) => c != w,
            (None, None) => false,
            _ => true,
        };
        let shape = if changed {
            self.current = wanted;
            wanted
        } else {
            None
        };
        CursorUpdate { hide_native, shape }
    }
}

/// Telling the window twice in a row about the same cursor asks nothing of
/// it the second time.
pub proof fn law_cursor_update_idempotent(s: CursorSync, draws_cursor: bool, wanted: Option<MouseCursor>)
    ensures
        cursor_step(cursor_step(s, draws_cursor, wanted).0, draws_cursor, wanted) == (
            cursor_step(s, draws_cursor, wanted).0,
            CursorUpdate { hide_native: None, shape: None },
        ),
{
}

} // verus!
