use vstd::prelude::*;

use crate::decorator::{DecorationArea, WindowEdges};
use crate::keys::Key;

verus! {

/// The mouse buttons and wheel directions.
#[derive(Clone, Copy, Debug, PartialEq, Eq, Structural)]
pub enum Button {
    MouseLeft,
    MouseRight,
    MouseMiddle,
    WheelUp,
    WheelDown,
    Unknown,
}

/// The shapes of the mouse cursor.
#[derive(Clone, Copy, Debug, PartialEq, Eq, Structural)]
pub enum MouseCursor {
    Arrow,
    TextInput,
    ResizeAll,
    ResizeNS,
    ResizeEW,
    ResizeNESW,
    ResizeNWSE,
    Hand,
    NotAllowed,
}

/// Position of the pointer and its last relative motion.
#[derive(Clone, Copy, Debug, PartialEq, Eq, Structural)]
pub struct MouseInfo {
    pub x: i32,
    pub y: i32,
    pub dx: i32,
    pub dy: i32,
}

/// What a window reports to the application.
#[derive(Clone, Copy, Debug, PartialEq, Eq)]
pub enum Event {
    CloseWindow,
    KeyPress(Key),
    KeyRelease(Key),
    ButtonPress(Button),
    ButtonRelease(Button),
    RedimWindow((usize, usize)),
    ReposWindow((i32, i32)),
    MouseMotion(MouseInfo),
    Empty,
}

/// Name of each cursor in the X cursor theme.
pub open spec fn x_cursor_name(c: MouseCursor) -> Seq<char> {
    match c {
        MouseCursor::Arrow => "default"@,
        MouseCursor::TextInput => "xterm"@,
        MouseCursor::ResizeAll => "fleur"@,
        MouseCursor::ResizeNS => "sb_v_double_arrow"@,
        MouseCursor::ResizeEW => "sb_h_double_arrow"@,
        MouseCursor::ResizeNESW => "bottom_left_corner"@,
        MouseCursor::ResizeNWSE => "bottom_right_corner"@,
        MouseCursor::Hand => "hand1"@,
        MouseCursor::NotAllowed => "circle"@,
    }
}

/// Name of each cursor in the Wayland cursor theme.
pub open spec fn theme_cursor_name(c: MouseCursor) -> Seq<char> {
    match c {
        MouseCursor::Arrow => "arrow"@,
        MouseCursor::TextInput => "xterm"@,
        MouseCursor::ResizeAll => "fleur"@,
        MouseCursor::ResizeNS => "sb_v_double_arrow"@,
        MouseCursor::ResizeEW => "sb_h_double_arrow"@,
        MouseCursor::ResizeNESW => "bottom_left_corner"@,
        MouseCursor::ResizeNWSE => "bottom_right_corner"@,
        MouseCursor::Hand => "hand1"@,
        MouseCursor::NotAllowed => "circle"@,
    }
}

/// The axis along which each resize cursor resizes, as a direction on the
/// screen (`y` up): north-south vertically, east-west horizontally,
/// north-east to south-west and north-west to south-east diagonally.  The
/// other cursors resize nothing.
pub open spec fn resize_axis(c: MouseCursor) -> Option<(int, int)> {
    match c {
        MouseCursor::ResizeNS => Some((0, 1)),
        MouseCursor::ResizeEW => Some((1, 0)),
        MouseCursor::ResizeNESW => Some((1, 1)),
        MouseCursor::ResizeNWSE => Some((-1, 1)),
        _ => None,
    }
}

/// The axis a cursor of the X cursor font shows, read from its name: the
/// scroll-bar arrows `sb_v_...` and `sb_h_...` point vertically and
/// horizontally, and the `bottom_left_...` and `bottom_right_...` corners
/// point along the diagonals through those corners.
pub open spec fn cursor_name_axis(name: Seq<char>) -> Option<(int, int)> {
    if name.len() > 3 && name[0] == 's' && name[1] == 'b' && name[2] == '_' {
        if name[3] == 'v' {
            Some((0, 1))
        } else if name[3] == 'h' {
            Some((1, 0))
        } else {
            None
        }
    } else if name.len() > 7 && name.subrange(0, 7) == seq!['b', 'o', 't', 't', 'o', 'm', '_'] {
        if name[7] == 'l' {
            Some((1, 1))
        } else if name[7] == 'r' {
            Some((-1, 1))
        } else {
            None
        }
    } else {
        None
    }
}

/// Every resize cursor is loaded, from the X cursor library and from a
/// Wayland cursor theme alike, under a name that shows the axis it resizes
/// along.
pub proof fn law_resize_cursor_names_show_their_axis(c: MouseCursor)
    ensures
        resize_axis(c) is Some ==> cursor_name_axis(x_cursor_name(c)) == resize_axis(c),
        resize_axis(c) is Some ==> theme_cursor_name(c) == x_cursor_name(c),
{
    reveal_strlit("sb_v_double_arrow");
    reveal_strlit("sb_h_double_arrow");
    reveal_strlit("bottom_left_corner");
    reveal_strlit("bottom_right_corner");
    if resize_axis(c) is Some {
        let name = x_cursor_name(c);
        if c == MouseCursor::ResizeNESW || c == MouseCursor::ResizeNWSE {
            assert(name.subrange(0, 7) =~= seq!['b', 'o', 't', 't', 'o', 'm', '_']);
        }
    }
}

impl MouseCursor {
    /// The name under which the X cursor library loads this cursor.
    pub fn as_c_str(self) -> (name: &'static str)
        ensures
            name@ == x_cursor_name(self),
    {
        match self {
            MouseCursor::Arrow => "default",
            MouseCursor::TextInput => "xterm",
            MouseCursor::ResizeAll => "fleur",
            MouseCursor::ResizeNS => "sb_v_double_arrow",
            MouseCursor::ResizeEW => "sb_h_double_arrow",
            MouseCursor::ResizeNESW => "bottom_left_corner",
            MouseCursor::ResizeNWSE => "bottom_right_corner",
            MouseCursor::Hand => "hand1",
            MouseCursor::NotAllowed => "circle",
        }
    }

    /// The name of this cursor in a Wayland cursor theme.
    pub fn theme_name(self) -> (name: &'static str)
        ensures
            name@ == theme_cursor_name(self),
    {
        match self {
            MouseCursor::Arrow => "arrow",
            MouseCursor::TextInput => "xterm",
            MouseCursor::ResizeAll => "fleur",
            MouseCursor::ResizeNS => "sb_v_double_arrow",
            MouseCursor::ResizeEW => "sb_h_double_arrow",
            MouseCursor::ResizeNESW => "bottom_left_corner",
            MouseCursor::ResizeNWSE => "bottom_right_corner",
            MouseCursor::Hand => "hand1",
            MouseCursor::NotAllowed => "circle",
        }
    }
}

/// The X11 pointer button numbered `n`, or `None` for a button the window
/// does not know.
pub open spec fn x_button(n: u32) -> Option<Button> {
    if n == 1 {
        Some(Button::MouseLeft)
    } else if n == 2 {
        Some(Button::MouseMiddle)
    } else if n == 3 {
        Some(Button::MouseRight)
    } else if n == 4 {
        Some(Button::WheelUp)
    } else if n == 5 {
        Some(Button::WheelDown)
    } else {
        None
    }
}

/// Where a pointer button sits on the mouse, from left (-1) through the
/// middle (0) to right (1); the wheel and unknown buttons sit nowhere.
pub open spec fn button_column(b: Button) -> Option<int> {
    match b {
        Button::MouseLeft => Some(-1),
        Button::MouseMiddle => Some(0),
        Button::MouseRight => Some(1),
        _ => None,
    }
}

/// Which way a wheel button turns the wheel: up (1) or down (-1).
pub open spec fn wheel_turn(b: Button) -> Option<int> {
    match b {
        Button::WheelUp => Some(1),
        Button::WheelDown => Some(-1),
        _ => None,
    }
}

/// X11 numbers the pointer buttons from the left one (1) through the middle
/// one to the right one (3), then the wheel turned up (4) and down (5); no
/// other number names a button the window knows.
pub proof fn law_x_buttons_are_numbered_left_to_right(n: u32)
    ensures
        1 <= n <= 3 <==> (x_button(n) matches Some(b) && button_column(b) == Some(n - 2)),
        4 <= n <= 5 <==> (x_button(n) matches Some(b) && wheel_turn(b) == Some(9 - 2 * n)),
        x_button(n) is Some <==> 1 <= n <= 5,
{
}

/// The event of a press (`pressed`) or release of the X11 pointer button
/// numbered `n`; unknown buttons give `Event::Empty`.
pub fn x_button_event(n: u32, pressed: bool) -> (e: Event)
    ensures
        e == match x_button(n) {
            Some(b) => if pressed {
                Event::ButtonPress(b)
            } else {
                Event::ButtonRelease(b)
            },
            None => Event::Empty,
        },
{
    let b = if n == 1 {
        Button::MouseLeft
    } else if n == 2 {
        Button::MouseMiddle
    } else if n == 3 {
        Button::MouseRight
    } else if n == 4 {
        Button::WheelUp
    } else if n == 5 {
        Button::WheelDown
    } else {
        return Event::Empty;
    };
    if pressed {
        Event::ButtonPress(b)
    } else {
        Event::ButtonRelease(b)
    }
}

/// An X11 event, reduced to the values the window reacts to.
#[derive(Clone, Copy, Debug, PartialEq, Eq, Structural)]
pub enum XInput {
    /// Relative pointer motion, already rounded towards zero.
    RawMotion { dx: i32, dy: i32 },
    ButtonPress(u32),
    ButtonRelease(u32),
    /// A client message whose first datum is the given atom.
    ClientMessage(u64),
    Configure { width: i32, height: i32, x: i32, y: i32 },
    /// A key press, by the keysym of the key.
    KeyPress(u32),
    KeyRelease(u32),
    Motion { x: i32, y: i32 },
    Other,
}

/// The window's reaction to one X11 event.
pub struct XReaction {
    pub events: Vec<Event>,
    pub size_changed: bool,
    pub toggle_fullscreen: bool,
    pub destroy_window: bool,
}

/// What the X11 window remembers between events.
#[derive(Clone, Copy, Debug, PartialEq, Eq, Structural)]
pub struct X11WindowState {
    pub width: usize,
    pub height: usize,
    pub pos_x: i32,
    pub pos_y: i32,
    pub mouse_info: MouseInfo,
    pub wm_delete_window: u64,
}

impl X11WindowState {
    /// Updates the state for one X11 event and says what to report and do.
    pub fn handle_input(&mut self, input: XInput) -> (r: XReaction)
        ensures
            final(self).wm_delete_window == old(self).wm_delete_window,
            match input {
                XInput::RawMotion { dx, dy } => {
                    let mi = MouseInfo { x: old(self).mouse_info.x, y: old(self).mouse_info.y, dx, dy };
                    &&& *final(self) == (X11WindowState { mouse_info: mi, ..*old(self) })
                    &&& r.events@ == seq![Event::MouseMotion(mi)]
                    &&& !r.size_changed && !r.toggle_fullscreen && !r.destroy_window
                },
                XInput::ButtonPress(n) => {
                    &&& *final(self) == *old(self)
                    &&& r.events@ == seq![
                        match x_button(n) {
                            Some(b) => Event::ButtonPress(b),
                            None => Event::Empty,
                        },
                    ]
                    &&& !r.size_changed && !r.toggle_fullscreen && !r.destroy_window
                },
                XInput::ButtonRelease(n) => {
                    &&& *final(self) == *old(self)
                    &&& r.events@ == seq![
                        match x_button(n) {
                            Some(b) => Event::ButtonRelease(b),
                            None => Event::Empty,
                        },
                    ]
                    &&& !r.size_changed && !r.toggle_fullscreen && !r.destroy_window
                },
                XInput::ClientMessage(atom) => {
                    &&& *final(self) == *old(self)
                    &&& r.events@ == seq![Event::CloseWindow]
                    &&& r.destroy_window == (atom == old(self).wm_delete_window)
                    &&& !r.size_changed && !r.toggle_fullscreen
                },
                XInput::Configure { width, height, x, y } => {
                    let w = width as usize;
                    let h = height as usize;
                    let resized = old(self).width != w || old(self).height != h;
                    let moved = old(self).pos_x != x || old(self).pos_y != y;
                    &&& final(self).width == (if resized { w } else { old(self).width })
                    &&& final(self).height == (if resized { h } else { old(self).height })
                    &&& final(self).pos_x == (if moved { x } else { old(self).pos_x })
                    &&& final(self).pos_y == (if moved { y } else { old(self).pos_y })
                    &&& final(self).mouse_info == old(self).mouse_info
                    &&& r.events@ == (if resized {
                        seq![Event::RedimWindow((w, h))]
                    } else {
                        Seq::empty()
                    }) + (if moved {
                        seq![Event::ReposWindow((x, y))]
                    } else {
                        Seq::empty()
                    })
                    &&& r.size_changed == resized
                    &&& !r.toggle_fullscreen && !r.destroy_window
                },
                XInput::KeyPress(sym) => {
                    let key = r.events@[0]->KeyPress_0;
                    &&& *final(self) == *old(self)
                    &&& r.events@.len() == 1
                    &&& r.events@[0] is KeyPress
                    &&& (key != Key::Unknown ==> crate::keys::key_keysym(key) == Some(sym))
                    &&& (key == Key::Unknown ==> forall|k: Key| crate::keys::key_keysym(k) != Some(sym))
                    &&& (forall|k: Key| crate::keys::key_keysym(k) == Some(sym) ==> key == k)
                    &&& r.toggle_fullscreen == (key == Key::F11)
                    &&& !r.size_changed && !r.destroy_window
                },
                XInput::KeyRelease(sym) => {
                    let key = r.events@[0]->KeyRelease_0;
                    &&& *final(self) == *old(self)
                    &&& r.events@.len() == 1
                    &&& r.events@[0] is KeyRelease
                    &&& (key != Key::Unknown ==> crate::keys::key_keysym(key) == Some(sym))
                    &&& (key == Key::Unknown ==> forall|k: Key| crate::keys::key_keysym(k) != Some(sym))
                    &&& (forall|k: Key| crate::keys::key_keysym(k) == Some(sym) ==> key == k)
                    &&& !r.size_changed && !r.toggle_fullscreen && !r.destroy_window
                },
                XInput::Motion { x, y } => {
                    let moved = old(self).mouse_info.x != x || old(self).mouse_info.y != y;
                    let mi = MouseInfo { x, y, dx: old(self).mouse_info.dx, dy: old(self).mouse_info.dy };
                    &&& *final(self) == (if moved {
                        X11WindowState { mouse_info: mi, ..*old(self) }
                    } else {
                        *old(self)
                    })
                    &&& r.events@ == (if moved {
                        seq![Event::MouseMotion(mi)]
                    } else {
                        Seq::empty()
                    })
                    &&& !r.size_changed && !r.toggle_fullscreen && !r.destroy_window
                },
                XInput::Other => {
                    &&& *final(self) == *old(self)
                    &&& r.events@ == Seq::<Event>::empty()
                    &&& !r.size_changed && !r.toggle_fullscreen && !r.destroy_window
                },
            },
    {
        let mut events: Vec<Event> = Vec::new();
        let mut size_changed = false;
        let mut toggle_fullscreen = false;
        let mut destroy_window = false;
        match input {
            XInput::RawMotion { dx, dy } => {
                let mouse_info = MouseInfo { x: self.mouse_info.x, y: self.mouse_info.y, dx, dy };
                self.mouse_info = mouse_info;
                events.push(Event::MouseMotion(mouse_info));
            },
            XInput::ButtonPress(n) => {
                events.push(x_button_event(n, true));
            },
            XInput::ButtonRelease(n) => {
                events.push(x_button_event(n, false));
            },
            XInput::ClientMessage(atom) => {
                if atom == self.wm_delete_window {
                    destroy_window = true;
                }
                events.push(Event::CloseWindow);
            },
            XInput::Configure { width, height, x, y } => {
                if self.width != width as usize || self.height != height as usize {
                    self.width = width as usize;
                    self.height = height as usize;
                    size_changed = true;
                    events.push(Event::RedimWindow((self.width, self.height)));
                }
                if self.pos_x != x || self.pos_y != y {
                    self.pos_x = x;
                    self.pos_y = y;
                    events.push(Event::ReposWindow((x, y)));
                }
            },
            XInput::KeyPress(sym) => {
                let key = Key::from_keysym(sym);
                if key == Key::F11 {
                    toggle_fullscreen = true;
                }
                events.push(Event::KeyPress(key));
            },
            XInput::KeyRelease(sym) => {
                events.push(Event::KeyRelease(Key::from_keysym(sym)));
            },
            XInput::Motion { x, y } => {
                if self.mouse_info.x != x || self.mouse_info.y != y {
                    let mouse_info = MouseInfo { x, y, dx: self.mouse_info.dx, dy: self.mouse_info.dy };
                    self.mouse_info = mouse_info;
                    events.push(Event::MouseMotion(mouse_info));
                }
            },
            XInput::Other => {},
        }
        XReaction { events, size_changed, toggle_fullscreen, destroy_window }
    }
}

/// Size in bytes of a frame buffer of `width * height` pixels of
/// `pixel_bytes` bytes each.
pub fn frame_buffer_size(width: usize, height: usize, pixel_bytes: usize) -> (n: usize)
    requires
        width * height * pixel_bytes <= usize::MAX,
    ensures
        n == width * height * pixel_bytes,
{
    proof {
        assert(width * height <= width * height * pixel_bytes || pixel_bytes == 0) by (nonlinear_arith);
        if pixel_bytes == 0 {
            assert(width * height * pixel_bytes == 0) by (nonlinear_arith)
                requires
                    pixel_bytes == 0,
            ;
        }
    }
    if pixel_bytes == 0 {
        return 0;
    }
    width * height * pixel_bytes
}

/// Whether a frame of `size` bytes fits in the window's buffer.
pub fn frame_fits(width: usize, height: usize, pixel_bytes: usize, size: usize) -> (b: bool)
    requires
        width * height * pixel_bytes <= usize::MAX,
    ensures
        b == (size <= width * height * pixel_bytes),
{
    size <= frame_buffer_size(width, height, pixel_bytes)
}

/// Whether the pointer may be moved to `(x, y)` in a window of the given size.
pub fn mouse_position_valid(x: i32, y: i32, width: usize, height: usize) -> (b: bool)
    ensures
        b == (0 <= x && x < (width as i32) && 0 <= y && y < (height as i32)),
{
    0 <= x && x < width as i32 && 0 <= y && y < height as i32
}

/// The Linux input event code of each mouse button.
pub open spec fn linux_button(code: u32) -> Button {
    if code == 0x110 {
        Button::MouseLeft
    } else if code == 0x112 {
        Button::MouseMiddle
    } else if code == 0x111 {
        Button::MouseRight
    } else if code == 0x151 {
        Button::WheelUp
    } else if code == 0x150 {
        Button::WheelDown
    } else {
        Button::Unknown
    }
}

/// The button of a Wayland pointer button event.
pub fn wayland_button(code: u32) -> (b: Button)
    ensures
        b == linux_button(code),
{
    if code == 0x110 {
        Button::MouseLeft
    } else if code == 0x112 {
        Button::MouseMiddle
    } else if code == 0x111 {
        Button::MouseRight
    } else if code == 0x151 {
        Button::WheelUp
    } else if code == 0x150 {
        Button::WheelDown
    } else {
        Button::Unknown
    }
}

/// The event of a Wayland pointer button: `Some(true)` for a press,
/// `Some(false)` for a release, `None` for a state the protocol added later.
pub fn wayland_button_event(code: u32, pressed: Option<bool>) -> (e: Event)
    ensures
        e == match pressed {
            Some(true) => Event::ButtonPress(linux_button(code)),
            Some(false) => Event::ButtonRelease(linux_button(code)),
            None => Event::Empty,
        },
{
    let b = wayland_button(code);
    match pressed {
        Some(true) => Event::ButtonPress(b),
        Some(false) => Event::ButtonRelease(b),
        None => Event::Empty,
    }
}

/// What pressing a button over the window frame asks the compositor to do.
#[derive(Clone, Copy, Debug, PartialEq, Eq, Structural)]
pub enum FrameAction {
    Move,
    Resize(WindowEdges),
    Nothing,
}

/// The title bar moves the window and the four side bars resize it.
pub fn frame_press_action(area: DecorationArea) -> (a: FrameAction)
    ensures
        a == match area {
            DecorationArea::TitleBar => FrameAction::Move,
            DecorationArea::Edge(WindowEdges::Top) => FrameAction::Resize(WindowEdges::Top),
            DecorationArea::Edge(WindowEdges::Bottom) => FrameAction::Resize(WindowEdges::Bottom),
            DecorationArea::Edge(WindowEdges::Right) => FrameAction::Resize(WindowEdges::Right),
            DecorationArea::Edge(WindowEdges::Left) => FrameAction::Resize(WindowEdges::Left),
            _ => FrameAction::Nothing,
        },
{
    match area {
        DecorationArea::TitleBar => FrameAction::Move,
        DecorationArea::Edge(WindowEdges::Top) => FrameAction::Resize(WindowEdges::Top),
        DecorationArea::Edge(WindowEdges::Bottom) => FrameAction::Resize(WindowEdges::Bottom),
        DecorationArea::Edge(WindowEdges::Right) => FrameAction::Resize(WindowEdges::Right),
        DecorationArea::Edge(WindowEdges::Left) => FrameAction::Resize(WindowEdges::Left),
        _ => FrameAction::Nothing,
    }
}

/// Geometry of the Wayland frame surface around content of a given size.
#[derive(Clone, Copy, Debug, PartialEq, Eq, Structural)]
pub struct FrameGeometry {
    pub width: i32,
    pub height: i32,
    /// Position of the frame relative to the content surface.
    pub offset_x: i32,
    pub offset_y: i32,
    /// The content area, cut out of the frame's input region.
    pub content_x: i32,
    pub content_y: i32,
    pub content_width: i32,
    pub content_height: i32,
    /// Bytes of the shared-memory pool that backs the frame.
    pub pool_len: i32,
}

/// Whether the frame of content `(cw, ch)` with a title bar `t` high and side
/// bars `s` thick can be computed with `i32` arithmetic.
pub open spec fn frame_geometry_fits(cw: int, ch: int, t: int, s: int) -> bool {
    let w = cw + 2 * s;
    let h = ch + t + 2 * s;
    &&& crate::decorator::fits_i32(2 * s)
    &&& crate::decorator::fits_i32(w)
    &&& crate::decorator::fits_i32(ch + t)
    &&& crate::decorator::fits_i32(h)
    &&& crate::decorator::fits_i32(-t)
    &&& crate::decorator::fits_i32(-t - s)
    &&& crate::decorator::fits_i32(t + s)
    &&& crate::decorator::fits_i32(w * h)
    &&& crate::decorator::fits_i32(w * h * 4)
}

/// Whether `frame_geometry` can compute the frame around content of width
/// `cw` and height `ch` with a title bar `t` high and side bars `s` thick.
pub fn can_compute_frame_geometry(cw: i32, ch: i32, t: i32, s: i32) -> (b: bool)
    ensures
        b == frame_geometry_fits(cw as int, ch as int, t as int, s as int),
{
    let (cw, ch, t, s) = (cw as i128, ch as i128, t as i128, s as i128);
    let fits = |v: i128| -> (r: bool)
        ensures
            r == crate::decorator::fits_i32(v as int),
        { -0x8000_0000 <= v && v <= 0x7fff_ffff };
    let w = cw + 2 * s;
    let h = ch + t + 2 * s;
    if !(fits(2 * s) && fits(w) && fits(ch + t) && fits(h) && fits(-t) && fits(-t - s) && fits(t + s)) {
        return false;
    }
    proof {
        assert(-0x8000_0000 * 0x8000_0000 <= w * h <= 0x8000_0000 * 0x8000_0000) by (nonlinear_arith)
            requires
                -0x8000_0000 <= w <= 0x7fff_ffff,
                -0x8000_0000 <= h <= 0x7fff_ffff,
        ;
    }
    fits(w * h) && fits(w * h * 4)
}

/// The frame of a Wayland window around content of the given size.
pub fn frame_geometry(content_dimensions: (i32, i32), title_bar_height: i32, side_bar_thickness: i32) -> (g: FrameGeometry)
    requires
        frame_geometry_fits(
            content_dimensions.0 as int,
            content_dimensions.1 as int,
            title_bar_height as int,
            side_bar_thickness as int,
        ),
    ensures
        ({
            let cw = content_dimensions.0 as int;
            let ch = content_dimensions.1 as int;
            let t = title_bar_height as int;
            let s = side_bar_thickness as int;
            &&& g.width == cw + 2 * s
            &&& g.height == ch + t + 2 * s
            &&& g.offset_x == -s
            &&& g.offset_y == -t - s
            &&& g.content_x == s
            &&& g.content_y == t + s
            &&& g.content_width == cw
            &&& g.content_height == ch
            &&& g.pool_len == (cw + 2 * s) * (ch + t + 2 * s) * 4
        }),
{
    let (content_width, content_height) = content_dimensions;
    let t = title_bar_height;
    let s = side_bar_thickness;
    let win_width = content_width + s * 2;
    let win_height = content_height + t + s * 2;
    FrameGeometry {
        width: win_width,
        height: win_height,
        offset_x: -s,
        offset_y: -t - s,
        content_x: s,
        content_y: t + s,
        content_width,
        content_height,
        pool_len: win_width * win_height * 4,
    }
}

/// The new length of a shared-memory pool of `current` bytes that must hold
/// a buffer of `width * height` pixels: the pool only ever grows, and `None`
/// means it keeps its length.
pub fn grown_pool_len(current: u32, width: i32, height: i32) -> (len: Option<u32>)
    requires
        crate::decorator::fits_i32(height * width),
        crate::decorator::fits_i32(height * width * 4),
    ensures
        len == if current < ((height * width * 4) as u32) {
            Some((height * width * 4) as u32)
        } else {
            None::<u32>
        },
{
    let new_len = (height * width * 4) as u32;
    if current < new_len {
        Some(new_len)
    } else {
        None
    }
}

/// Whether a configure event of the compositor asks for a new content size.
pub fn configure_resizes(width: i32, height: i32, content_width: i32, content_height: i32) -> (b: bool)
    ensures
        b == (width != 0 && height != 0 && (width != content_width || height != content_height)),
{
    let size_changed = width != content_width || height != content_height;
    width != 0 && height != 0 && size_changed
}

/// Size of the content of a framed window of the given outer size.
pub fn framed_content_size(width: u32, height: u32, title_bar_height: u32, side_bar_thickness: u32) -> (d: (i32, i32))
    requires
        side_bar_thickness * 2 <= u32::MAX,
        side_bar_thickness * 2 <= width,
        side_bar_thickness * 2 + title_bar_height <= height,
    ensures
        d == ((width - 2 * side_bar_thickness) as i32, (height - 2 * side_bar_thickness - title_bar_height) as i32),
{
    ((width - side_bar_thickness * 2) as i32, (height - side_bar_thickness * 2 - title_bar_height) as i32)
}

} // verus!
