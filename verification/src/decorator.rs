use vstd::prelude::*;

verus! {

/// An axis-aligned rectangle: the points `(px, py)` with
/// `x <= px < x + width` and `y <= py < y + height`.
#[derive(Clone, Copy, Debug, PartialEq, Eq, Structural)]
pub struct Rectangle {
    pub x: i32,
    pub y: i32,
    pub width: i32,
    pub height: i32,
}

/// Whether `v` is representable as an `i32`.
pub open spec fn fits_i32(v: int) -> bool {
    i32::MIN <= v <= i32::MAX
}

/// Whether the rectangle holds the point.
pub open spec fn rect_contains(r: Rectangle, px: int, py: int) -> bool {
    r.x <= px < r.x + r.width && r.y <= py < r.y + r.height
}

/// The rectangle with the given corner and size.
pub open spec fn rect(x: int, y: int, width: int, height: int) -> Rectangle {
    Rectangle { x: x as i32, y: y as i32, width: width as i32, height: height as i32 }
}

/// `v / 2` rounded towards zero.
pub open spec fn half_toward_zero(v: int) -> int {
    if v >= 0 {
        v / 2
    } else {
        -((-v) / 2)
    }
}

impl Rectangle {
    pub fn new(x: i32, y: i32, width: i32, height: i32) -> (r: Rectangle)
        ensures
            r == (Rectangle { x, y, width, height }),
    {
        Rectangle { x, y, width, height }
    }

    /// The first `x` to the right of the rectangle.
    pub fn x_max(&self) -> (v: i32)
        requires
            fits_i32(self.x + self.width),
        ensures
            v == self.x + self.width,
    {
        self.x + self.width
    }

    /// Whether the rectangle holds the point.
    pub fn contains(&self, px: i32, py: i32) -> (b: bool)
        ensures
            b == rect_contains(*self, px as int, py as int),
    {
        let px = px as i64;
        let py = py as i64;
        self.x as i64 <= px && px < self.x as i64 + self.width as i64 && self.y as i64 <= py && py
            < self.y as i64 + self.height as i64
    }
}

/// The parts of a window frame.
#[derive(Clone, Copy, Debug, PartialEq, Eq, Structural)]
pub enum DecorationBitFlag {
    TitleBar,
    RightSideBar,
    BottomSideBar,
    LeftSideBar,
    TopSideBar,
    CloseButton,
    MaximizeButton,
    MinimizeButton,
}

/// The bit that stands for each part of the frame.
pub open spec fn flag_bit(f: DecorationBitFlag) -> u32 {
    match f {
        DecorationBitFlag::TitleBar => 1,
        DecorationBitFlag::RightSideBar => 2,
        DecorationBitFlag::BottomSideBar => 4,
        DecorationBitFlag::LeftSideBar => 8,
        DecorationBitFlag::TopSideBar => 16,
        DecorationBitFlag::CloseButton => 32,
        DecorationBitFlag::MaximizeButton => 64,
        DecorationBitFlag::MinimizeButton => 128,
    }
}

impl DecorationBitFlag {
    pub fn bit(&self) -> (b: u32)
        ensures
            b == flag_bit(*self),
    {
        match self {
            DecorationBitFlag::TitleBar => 1,
            DecorationBitFlag::RightSideBar => 2,
            DecorationBitFlag::BottomSideBar => 4,
            DecorationBitFlag::LeftSideBar => 8,
            DecorationBitFlag::TopSideBar => 16,
            DecorationBitFlag::CloseButton => 32,
            DecorationBitFlag::MaximizeButton => 64,
            DecorationBitFlag::MinimizeButton => 128,
        }
    }
}

/// The edges and corners by which a window is resized.
#[derive(Clone, Copy, Debug, PartialEq, Eq, Structural)]
pub enum WindowEdges {
    Top,
    TopRight,
    Right,
    BottomRight,
    Bottom,
    BottomLeft,
    Left,
    TopLeft,
}

/// What a point of the window frame is over.
#[derive(Clone, Copy, Debug, PartialEq, Eq, Structural)]
pub enum DecorationArea {
    Edge(WindowEdges),
    TitleBar,
    CloseButton,
    MaximizeButton,
    MinimizeButton,
    NoDecoration,
}

/// The set of frame parts that hold a point, one bit per part.
#[derive(Clone, Copy, Debug, PartialEq, Eq, Structural)]
pub struct DecorationIntersection(pub u32);

/// The area that a set of frame parts stands for: the title bar alone, a
/// button over the title bar, one side bar, or two side bars that meet at a
/// corner; any other set stands for no area.
pub open spec fn area_of(v: u32) -> DecorationArea {
    if v == 1 {
        DecorationArea::TitleBar
    } else if v == 1 | 32 {
        DecorationArea::CloseButton
    } else if v == 1 | 64 {
        DecorationArea::MaximizeButton
    } else if v == 1 | 128 {
        DecorationArea::MinimizeButton
    } else if v == 16 {
        DecorationArea::Edge(WindowEdges::Top)
    } else if v == 8 {
        DecorationArea::Edge(WindowEdges::Left)
    } else if v == 2 {
        DecorationArea::Edge(WindowEdges::Right)
    } else if v == 4 {
        DecorationArea::Edge(WindowEdges::Bottom)
    } else if v == 16 | 8 {
        DecorationArea::Edge(WindowEdges::TopLeft)
    } else if v == 16 | 2 {
        DecorationArea::Edge(WindowEdges::TopRight)
    } else if v == 4 | 8 {
        DecorationArea::Edge(WindowEdges::BottomLeft)
    } else if v == 4 | 2 {
        DecorationArea::Edge(WindowEdges::BottomRight)
    } else {
        DecorationArea::NoDecoration
    }
}

impl DecorationIntersection {
    pub fn empty() -> (s: DecorationIntersection)
        ensures
            s.0 == 0,
    {
        DecorationIntersection(0)
    }

    /// The set with the given part added.
    pub fn add(&self, decoration: DecorationBitFlag) -> (s: DecorationIntersection)
        ensures
            s.0 == self.0 | flag_bit(decoration),
    {
        DecorationIntersection(self.0 | decoration.bit())
    }

    /// The area that this set of parts stands for.
    pub fn as_area(&self) -> (a: DecorationArea)
        ensures
            a == area_of(self.0),
    {
        let title_bar = Self::empty().add(DecorationBitFlag::TitleBar);
        let close_btn = title_bar.add(DecorationBitFlag::CloseButton);
        let max_btn = title_bar.add(DecorationBitFlag::MaximizeButton);
        let min_btn = title_bar.add(DecorationBitFlag::MinimizeButton);
        let top = Self::empty().add(DecorationBitFlag::TopSideBar);
        let left = Self::empty().add(DecorationBitFlag::LeftSideBar);
        let right = Self::empty().add(DecorationBitFlag::RightSideBar);
        let bottom = Self::empty().add(DecorationBitFlag::BottomSideBar);
        let top_left = top.add(DecorationBitFlag::LeftSideBar);
        let top_right = top.add(DecorationBitFlag::RightSideBar);
        let bottom_left = bottom.add(DecorationBitFlag::LeftSideBar);
        let bottom_right = bottom.add(DecorationBitFlag::RightSideBar);
        proof {
            assert(0u32 | 1u32 == 1u32) by (bit_vector);
            assert(0u32 | 16u32 == 16u32) by (bit_vector);
            assert(0u32 | 8u32 == 8u32) by (bit_vector);
            assert(0u32 | 2u32 == 2u32) by (bit_vector);
            assert(0u32 | 4u32 == 4u32) by (bit_vector);
        }
        if self.0 == title_bar.0 {
            return DecorationArea::TitleBar;
        }
        if self.0 == close_btn.0 {
            return DecorationArea::CloseButton;
        }
        if self.0 == max_btn.0 {
            return DecorationArea::MaximizeButton;
        }
        if self.0 == min_btn.0 {
            return DecorationArea::MinimizeButton;
        }
        if self.0 == top.0 {
            return DecorationArea::Edge(WindowEdges::Top);
        }
        if self.0 == left.0 {
            return DecorationArea::Edge(WindowEdges::Left);
        }
        if self.0 == right.0 {
            return DecorationArea::Edge(WindowEdges::Right);
        }
        if self.0 == bottom.0 {
            return DecorationArea::Edge(WindowEdges::Bottom);
        }
        if self.0 == top_left.0 {
            return DecorationArea::Edge(WindowEdges::TopLeft);
        }
        if self.0 == top_right.0 {
            return DecorationArea::Edge(WindowEdges::TopRight);
        }
        if self.0 == bottom_left.0 {
            return DecorationArea::Edge(WindowEdges::BottomLeft);
        }
        if self.0 == bottom_right.0 {
            return DecorationArea::Edge(WindowEdges::BottomRight);
        }
        DecorationArea::NoDecoration
    }
}

/// A part of the window frame and the rectangle it covers, in frame
/// coordinates with `y` growing upwards.
#[derive(Clone, Copy, Debug, PartialEq, Eq, Structural)]
pub struct Decoration {
    pub id: DecorationBitFlag,
    pub rect: Rectangle,
    pub visibility: bool,
}

impl Decoration {
    /// A visible part.
    pub fn new(id: DecorationBitFlag, rect: Rectangle) -> (d: Decoration)
        ensures
            d == (Decoration { id, rect, visibility: true }),
    {
        Decoration { id, rect, visibility: true }
    }
}

/// A visible part of the frame.
pub open spec fn deco(id: DecorationBitFlag, r: Rectangle) -> Decoration {
    Decoration { id, rect: r, visibility: true }
}

/// The buttons are squares of side twice this radius.
pub const BUTTON_RADIUS: i32 = 10;

/// Room left between two buttons and between the last one and the end of the
/// title bar.
pub const SPACE_BETWEEN: i32 = 20;

/// Whether the buttons of the given title bar can be placed with `i32`
/// arithmetic.
pub open spec fn buttons_fit(title: Rectangle) -> bool {
    let by = title.y + half_toward_zero(title.height as int) - 10;
    let end = title.x + title.width;
    &&& fits_i32(title.y + half_toward_zero(title.height as int))
    &&& fits_i32(by)
    &&& fits_i32(end)
    &&& fits_i32(end - 20)
    &&& fits_i32(end - 40)
    &&& fits_i32(end - 60)
    &&& fits_i32(end - 80)
    &&& fits_i32(end - 100)
    &&& fits_i32(end - 120)
}

/// The close, maximize and minimize buttons, in that order from the right end
/// of the title bar, vertically centred on it.
pub open spec fn button_decorations(title: Rectangle) -> Seq<Decoration> {
    let by = title.y + half_toward_zero(title.height as int) - 10;
    let end = title.x + title.width;
    seq![
        deco(DecorationBitFlag::CloseButton, rect(end - 40, by, 20, 20)),
        deco(DecorationBitFlag::MaximizeButton, rect(end - 80, by, 20, 20)),
        deco(DecorationBitFlag::MinimizeButton, rect(end - 120, by, 20, 20)),
    ]
}

/// Whether a frame around content of the given size can be laid out with
/// `i32` arithmetic, the title bar and top side bar lying within it.
pub open spec fn new_frame_fits(cw: int, ch: int, t: int, s: int) -> bool {
    let h = ch + 2 * s + t;
    &&& fits_i32(2 * s)
    &&& fits_i32(cw + 2 * s)
    &&& fits_i32(ch + 2 * s)
    &&& fits_i32(h)
    &&& fits_i32(s + ch)
    &&& fits_i32(s + ch + t)
    &&& fits_i32(s + cw)
    &&& fits_i32(h - s)
    &&& h - t >= 0
    &&& h - s >= 0
    &&& buttons_fit(rect(0, h - t, cw, t))
}

/// The parts of a new frame around content of width `cw` and height `ch`,
/// with a title bar of height `t` and side bars `s` thick: the title bar, the
/// top, bottom, right and left side bars, then the buttons.
pub open spec fn new_frame_decorations(cw: int, ch: int, t: int, s: int) -> Seq<Decoration> {
    let w = cw + 2 * s;
    let h = ch + 2 * s + t;
    let title = rect(0, h - t, cw, t);
    seq![
        deco(DecorationBitFlag::TitleBar, title),
        deco(DecorationBitFlag::TopSideBar, rect(0, h - s, w, s)),
        deco(DecorationBitFlag::BottomSideBar, rect(0, h - (s + ch + t) - s, w, s)),
        deco(DecorationBitFlag::RightSideBar, rect(s + cw, 0, s, h)),
        deco(DecorationBitFlag::LeftSideBar, rect(0, 0, s, h)),
    ] + button_decorations(title)
}

/// Position and size of the content of a frame of width `w` and height `h`.
pub open spec fn content_of(w: int, h: int, t: int, s: int, maximized: bool) -> (int, int, int, int) {
    if maximized {
        (0, t, w, h - t)
    } else {
        (s, t + s, w - 2 * s, h - (2 * s + t))
    }
}

/// Whether a frame of width `w` and height `h` can be laid out with `i32`
/// arithmetic.
pub open spec fn resized_frame_fits(w: int, h: int, t: int, s: int, maximized: bool) -> bool {
    let (cx, cy, cw, ch) = content_of(w, h, t, s, maximized);
    &&& fits_i32(2 * s)
    &&& fits_i32(t + s)
    &&& fits_i32(w - 2 * s)
    &&& fits_i32(2 * s + t)
    &&& fits_i32(h - t)
    &&& fits_i32(h - (2 * s + t))
    &&& fits_i32(cy - t)
    &&& fits_i32(h - (cy - t))
    &&& fits_i32(h - (cy - t) - t)
    &&& fits_i32(h - s)
    &&& fits_i32(s + ch)
    &&& fits_i32(s + ch + t)
    &&& fits_i32(h - (s + ch + t))
    &&& fits_i32(h - (s + ch + t) - s)
    &&& fits_i32(s + cw)
    &&& buttons_fit(rect(cx, h - (cy - t) - t, cw, t))
}

/// The parts of a frame resized to width `w` and height `h`: the title bar,
/// the top, bottom, left and right side bars, then the buttons; the side
/// bars are hidden when the window is maximized.
pub open spec fn resized_frame_decorations(w: int, h: int, t: int, s: int, maximized: bool) -> Seq<Decoration> {
    let (cx, cy, cw, ch) = content_of(w, h, t, s, maximized);
    let title = rect(cx, h - (cy - t) - t, cw, t);
    let v = !maximized;
    seq![
        deco(DecorationBitFlag::TitleBar, title),
        Decoration { id: DecorationBitFlag::TopSideBar, rect: rect(0, h - s, w, s), visibility: v },
        Decoration {
            id: DecorationBitFlag::BottomSideBar,
            rect: rect(0, h - (s + ch + t) - s, w, s),
            visibility: v,
        },
        Decoration { id: DecorationBitFlag::LeftSideBar, rect: rect(0, 0, s, h), visibility: v },
        Decoration { id: DecorationBitFlag::RightSideBar, rect: rect(s + cw, 0, s, h), visibility: v },
    ] + button_decorations(title)
}

/// The parts among `decos` that are visible and hold the point, as a set of
/// bits.
pub open spec fn parts_holding(decos: Seq<Decoration>, px: int, py: int) -> u32
    decreases decos.len(),
{
    if decos.len() == 0 {
        0
    } else {
        let d = decos.last();
        let rest = parts_holding(decos.drop_last(), px, py);
        if rect_contains(d.rect, px, py) && d.visibility {
            rest | flag_bit(d.id)
        } else {
            rest
        }
    }
}

fn fits(v: i64) -> (b: bool)
    ensures
        b == fits_i32(v as int),
{
    -0x8000_0000 <= v && v <= 0x7fff_ffff
}

fn buttons_fit_check(title: Rectangle) -> (b: bool)
    ensures
        b == buttons_fit(title),
{
    let half = title.height / 2;
    proof {
        assert(half == half_toward_zero(title.height as int));
    }
    let by = title.y as i64 + half as i64 - 10;
    let end = title.x as i64 + title.width as i64;
    fits(title.y as i64 + half as i64) && fits(by) && fits(end) && fits(end - 20) && fits(end - 40) && fits(
        end - 60,
    ) && fits(end - 80) && fits(end - 100) && fits(end - 120)
}

/// Whether `WindowDecorator::new` can lay out a frame around content of
/// width `cw` and height `ch` with a title bar `t` high and side bars `s`
/// thick.
pub fn can_lay_out_new_frame(cw: i32, ch: i32, t: i32, s: i32) -> (b: bool)
    ensures
        b == new_frame_fits(cw as int, ch as int, t as int, s as int),
{
    let (cw, ch, t, s) = (cw as i64, ch as i64, t as i64, s as i64);
    let h = ch + 2 * s + t;
    if !(fits(2 * s) && fits(cw + 2 * s) && fits(ch + 2 * s) && fits(h) && fits(s + ch) && fits(s + ch + t)
        && fits(s + cw) && fits(h - s) && h - t >= 0 && h - s >= 0) {
        return false;
    }
    let title = Rectangle::new(0, #[verifier::truncate] ((h - t) as i32), cw as i32, t as i32);
    buttons_fit_check(title)
}

/// Whether `WindowDecorator::resize_window_frame` can lay out a frame of
/// width `w` and height `h` with a title bar `t` high and side bars `s`
/// thick.
pub fn can_lay_out_resized_frame(w: i32, h: i32, t: i32, s: i32, maximized: bool) -> (b: bool)
    ensures
        b == resized_frame_fits(w as int, h as int, t as int, s as int, maximized),
{
    let (w, h, t, s) = (w as i64, h as i64, t as i64, s as i64);
    let (cx, cy, cw, ch) = if maximized {
        (0, t, w, h - t)
    } else {
        (s, t + s, w - 2 * s, h - (2 * s + t))
    };
    if !(fits(2 * s) && fits(t + s) && fits(w - 2 * s) && fits(2 * s + t) && fits(h - t) && fits(h - (2 * s + t))
        && fits(cy - t) && fits(h - (cy - t)) && fits(h - (cy - t) - t) && fits(h - s) && fits(s + ch) && fits(
        s + ch + t,
    ) && fits(h - (s + ch + t)) && fits(h - (s + ch + t) - s) && fits(s + cw)) {
        return false;
    }
    let title = Rectangle::new(
        #[verifier::truncate] (cx as i32),
        #[verifier::truncate] ((h - (cy - t) - t) as i32),
        #[verifier::truncate] (cw as i32),
        t as i32,
    );
    buttons_fit_check(title)
}

/// Whether a visible part among `decos` holds the point.
pub open spec fn visible_part_at(decos: Seq<Decoration>, px: int, py: int) -> bool {
    exists|i: int| 0 <= i < decos.len() && decos[i].visibility && rect_contains(#[trigger] decos[i].rect, px, py)
}

/// The four bytes, in the order blue, green, red, alpha, of a frame pixel:
/// opaque red where a visible part lies, fully transparent elsewhere.
pub open spec fn frame_pixel_bytes(covered: bool) -> Seq<u8> {
    if covered {
        seq![0u8, 0u8, 255u8, 255u8]
    } else {
        seq![0u8, 0u8, 0u8, 0u8]
    }
}

/// The frame drawn around the content of a window: title bar, buttons and
/// side bars by which the window is moved and resized.
pub struct WindowDecorator {
    pub width: i32,
    pub height: i32,
    pub title_bar_height: i32,
    pub side_bar_thickness: i32,
    pub window_rect: Rectangle,
    pub content_rect: Rectangle,
    pub decorations: Vec<Decoration>,
    pub is_maximized: bool,
}

impl WindowDecorator {
    /// A frame around content of the given width and height, with a title bar
    /// of height `title_bar_height` and side bars `side_bar_thickness` thick.
    pub fn new(content_dimensions: (i32, i32), title_bar_height: i32, side_bar_thickness: i32) -> (d: WindowDecorator)
        requires
            new_frame_fits(
                content_dimensions.0 as int,
                content_dimensions.1 as int,
                title_bar_height as int,
                side_bar_thickness as int,
            ),
        ensures
            ({
                let cw = content_dimensions.0 as int;
                let ch = content_dimensions.1 as int;
                let t = title_bar_height as int;
                let s = side_bar_thickness as int;
                &&& d.width == cw + 2 * s
                &&& d.height == ch + 2 * s + t
                &&& d.title_bar_height == t
                &&& d.side_bar_thickness == s
                &&& d.decorations@ == new_frame_decorations(cw, ch, t, s)
                &&& d.window_rect == rect(0, 0, cw + 2 * s, ch + 2 * s + t)
                &&& d.content_rect == rect(s, t, cw, ch)
                &&& !d.is_maximized
            }),
    {
        let (content_width, content_height) = content_dimensions;
        let t = title_bar_height;
        let s = side_bar_thickness;
        let content_x = s;
        let content_y = t;
        let win_width = content_width + s * 2;
        let win_height = content_height + s * 2 + t;

        let title_bar = Decoration::new(
            DecorationBitFlag::TitleBar,
            Rectangle::new(0, win_height - 0 - t, content_width, t),
        );
        let top_side_bar = Decoration::new(
            DecorationBitFlag::TopSideBar,
            Rectangle::new(0, win_height - 0 - s, win_width, s),
        );
        let bottom_bar_y = s + content_height + t;
        let bottom_side_bar = Decoration::new(
            DecorationBitFlag::BottomSideBar,
            Rectangle::new(0, win_height - bottom_bar_y - s, win_width, s),
        );
        let left_side_bar = Decoration::new(
            DecorationBitFlag::LeftSideBar,
            Rectangle::new(0, win_height - 0 - win_height, s, win_height),
        );
        let right_side_bar = Decoration::new(
            DecorationBitFlag::RightSideBar,
            Rectangle::new(s + content_width, win_height - 0 - win_height, s, win_height),
        );
        let mut buttons = Self::make_buttons(&title_bar);
        let mut decorations: Vec<Decoration> = Vec::new();
        decorations.push(title_bar);
        decorations.push(top_side_bar);
        decorations.push(bottom_side_bar);
        decorations.push(right_side_bar);
        decorations.push(left_side_bar);
        decorations.append(&mut buttons);
        WindowDecorator {
            width: win_width,
            height: win_height,
            title_bar_height,
            side_bar_thickness,
            decorations,
            is_maximized: false,
            window_rect: Rectangle::new(0, 0, win_width, win_height),
            content_rect: Rectangle::new(content_x, content_y, content_width, content_height),
        }
    }

    /// The close, maximize and minimize buttons of a title bar.
    pub fn make_buttons(title_bar: &Decoration) -> (buttons: Vec<Decoration>)
        requires
            title_bar.id == DecorationBitFlag::TitleBar,
            buttons_fit(title_bar.rect),
        ensures
            buttons@ == button_decorations(title_bar.rect),
    {
        let button_diameter = 2 * BUTTON_RADIUS;
        let half = title_bar.rect.height / 2;
        proof {
            assert(half == half_toward_zero(title_bar.rect.height as int));
        }
        let buttons_y = title_bar.rect.y + half - BUTTON_RADIUS;
        let title_bar_end_x = title_bar.rect.x_max();
        let close_x = title_bar_end_x - SPACE_BETWEEN - button_diameter;
        let maximize_x = close_x - SPACE_BETWEEN - button_diameter;
        let minimize_x = maximize_x - SPACE_BETWEEN - button_diameter;
        let mut buttons: Vec<Decoration> = Vec::new();
        buttons.push(
            Decoration::new(
                DecorationBitFlag::CloseButton,
                Rectangle::new(close_x, buttons_y, button_diameter, button_diameter),
            ),
        );
        buttons.push(
            Decoration::new(
                DecorationBitFlag::MaximizeButton,
                Rectangle::new(maximize_x, buttons_y, button_diameter, button_diameter),
            ),
        );
        buttons.push(
            Decoration::new(
                DecorationBitFlag::MinimizeButton,
                Rectangle::new(minimize_x, buttons_y, button_diameter, button_diameter),
            ),
        );
        buttons
    }

    /// Position in the frame of the first part with the given id.
    pub fn find_decoration(&self, decoration_id: DecorationBitFlag) -> (i: Option<usize>)
        ensures
            match i {
                Some(k) => {
                    &&& k < self.decorations@.len()
                    &&& self.decorations@[k as int].id == decoration_id
                    &&& forall|j: int| 0 <= j < k ==> (#[trigger] self.decorations@[j]).id != decoration_id
                },
                None => forall|j: int|
                    0 <= j < self.decorations@.len() ==> (#[trigger] self.decorations@[j]).id != decoration_id,
            },
    {
        let mut i: usize = 0;
        while i < self.decorations.len()
            invariant
                i <= self.decorations@.len(),
                forall|j: int| 0 <= j < i ==> (#[trigger] self.decorations@[j]).id != decoration_id,
            decreases self.decorations@.len() - i,
        {
            if self.decorations[i].id == decoration_id {
                return Some(i);
            }
            i = i + 1;
        }
        None
    }

    /// The area of the frame under the point `(x, y)`, given in window
    /// coordinates with `y` growing downwards.
    pub fn inside_area(&self, x: i32, y: i32) -> (a: DecorationArea)
        requires
            x >= 0 && y >= 0 ==> fits_i32(self.height - y - 1),
        ensures
            a == if x < 0 || y < 0 {
                DecorationArea::NoDecoration
            } else {
                area_of(parts_holding(self.decorations@, x as int, self.height - y - 1))
            },
    {
        if x < 0 || y < 0 {
            return DecorationArea::NoDecoration;
        }
        let fy = self.height - y - 1;
        let mut intersection = DecorationIntersection::empty();
        let mut i: usize = 0;
        while i < self.decorations.len()
            invariant
                i <= self.decorations@.len(),
                intersection.0 == parts_holding(self.decorations@.take(i as int), x as int, fy as int),
            decreases self.decorations@.len() - i,
        {
            let d = self.decorations[i];
            proof {
                assert(self.decorations@.take(i + 1).drop_last() == self.decorations@.take(i as int));
                assert(self.decorations@.take(i + 1).last() == d);
            }
            if d.rect.contains(x, fy) && d.visibility {
                intersection = intersection.add(d.id);
            }
            i = i + 1;
        }
        proof {
            assert(self.decorations@.take(self.decorations@.len() as int) == self.decorations@);
        }
        intersection.as_area()
    }

    /// Whether a visible part of the frame holds the point `(x, y)`, given
    /// with `y` growing upwards.
    fn visible_part_holds(&self, x: i32, y: i32) -> (b: bool)
        ensures
            b == visible_part_at(self.decorations@, x as int, y as int),
    {
        let mut i: usize = 0;
        while i < self.decorations.len()
            invariant
                i <= self.decorations@.len(),
                forall|j: int|
                    0 <= j < i ==> !(self.decorations@[j].visibility && rect_contains(
                        #[trigger] self.decorations@[j].rect,
                        x as int,
                        y as int,
                    )),
            decreases self.decorations@.len() - i,
        {
            let d = self.decorations[i];
            if d.visibility && d.rect.contains(x, y) {
                return true;
            }
            i = i + 1;
        }
        false
    }

    /// The pixels of the frame, four bytes each (blue, green, red, alpha),
    /// row by row from the top row: the visible parts in opaque red, the rest
    /// transparent.
    pub fn render(&self) -> (bytes: Vec<u8>)
        requires
            self.width >= 0,
            self.height >= 0,
            4 * self.width * self.height <= usize::MAX,
        ensures
            bytes@.len() == 4 * self.width * self.height,
            forall|i: int, k: int|
                0 <= i < self.width * self.height && 0 <= k < 4 ==> #[trigger] bytes@[4 * i + k]
                    == frame_pixel_bytes(
                    visible_part_at(self.decorations@, i % self.width as int, self.height - 1 - i / self.width as int),
                )[k],
    {
        let w = self.width as usize;
        let h = self.height as usize;
        proof {
            assert(4 * (w * h) == 4 * w * h && w * h <= 4 * (w * h)) by (nonlinear_arith)
                requires
                    w >= 0,
                    h >= 0,
            ;
        }
        let n: usize = w * h;
        let mut bytes: Vec<u8> = Vec::new();
        let mut i: usize = 0;
        while i < n
            invariant
                i <= n,
                n == w * h,
                w == self.width,
                h == self.height,
                4 * n <= usize::MAX,
                bytes@.len() == 4 * i,
                forall|j: int, k: int|
                    0 <= j < i && 0 <= k < 4 ==> #[trigger] bytes@[4 * j + k] == frame_pixel_bytes(
                        visible_part_at(self.decorations@, j % w as int, h - 1 - j / w as int),
                    )[k],
            decreases n - i,
        {
            proof {
                assert(w > 0) by (nonlinear_arith)
                    requires
                        i < n,
                        n == w * h,
                ;
            }
            let col = i % w;
            let row = i / w;
            proof {
                assert(row < h) by (nonlinear_arith)
                    requires
                        row == i / w,
                        i < n,
                        n == w * h,
                        w > 0,
                ;
            }
            let fy = (h - 1 - row) as i32;
            let covered = self.visible_part_holds(col as i32, fy);
            let ghost before = bytes@;
            if covered {
                bytes.push(0u8);
                bytes.push(0u8);
                bytes.push(255u8);
                bytes.push(255u8);
            } else {
                bytes.push(0u8);
                bytes.push(0u8);
                bytes.push(0u8);
                bytes.push(0u8);
            }
            proof {
                assert(bytes@ == before + frame_pixel_bytes(covered));
                assert forall|j: int, k: int| 0 <= j < i + 1 && 0 <= k < 4 implies #[trigger] bytes@[4 * j + k]
                    == frame_pixel_bytes(visible_part_at(self.decorations@, j % w as int, h - 1 - j / w as int))[k] by {
                    if j < i {
                        assert(before[4 * j + k] == bytes@[4 * j + k]);
                    }
                }
            }
            i = i + 1;
        }
        bytes
    }

    pub fn set_maximized(&mut self, is_maximized: bool)
        ensures
            *final(self) == (WindowDecorator { is_maximized, ..*old(self) }),
    {
        self.is_maximized = is_maximized;
    }

    /// Lays the frame out again for a window of width `width` and height
    /// `height`; negative sizes leave it as it is.
    pub fn resize_window_frame(&mut self, width: i32, height: i32)
        requires
            width >= 0 && height >= 0 ==> resized_frame_fits(
                width as int,
                height as int,
                old(self).title_bar_height as int,
                old(self).side_bar_thickness as int,
                old(self).is_maximized,
            ),
        ensures
            width < 0 || height < 0 ==> *final(self) == *old(self),
            width >= 0 && height >= 0 ==> ({
                let t = old(self).title_bar_height as int;
                let s = old(self).side_bar_thickness as int;
                let m = old(self).is_maximized;
                let (cx, cy, cw, ch) = content_of(width as int, height as int, t, s, m);
                &&& final(self).width == width
                &&& final(self).height == height
                &&& final(self).title_bar_height == old(self).title_bar_height
                &&& final(self).side_bar_thickness == old(self).side_bar_thickness
                &&& final(self).is_maximized == m
                &&& final(self).decorations@ == resized_frame_decorations(width as int, height as int, t, s, m)
                &&& final(self).window_rect == rect(0, 0, width as int, height as int)
                &&& final(self).content_rect == rect(cx, cy, cw, ch)
            }),
    {
        if width < 0 || height < 0 {
            return;
        }
        let t = self.title_bar_height;
        let s = self.side_bar_thickness;
        let (content_x, content_y, content_width, content_height) = if self.is_maximized {
            (0, t, width, height - t)
        } else {
            (s, t + s, width - s * 2, height - (s * 2 + t))
        };
        self.width = width;
        self.height = height;

        let title_bar_y = content_y - t;
        let title_bar = Decoration::new(
            DecorationBitFlag::TitleBar,
            Rectangle::new(content_x, height - title_bar_y - t, content_width, t),
        );
        let mut top_side_bar = Decoration::new(
            DecorationBitFlag::TopSideBar,
            Rectangle::new(0, height - 0 - s, width, s),
        );
        let bottom_bar_y = s + content_height + t;
        let mut bottom_side_bar = Decoration::new(
            DecorationBitFlag::BottomSideBar,
            Rectangle::new(0, height - bottom_bar_y - s, width, s),
        );
        let mut left_side_bar = Decoration::new(
            DecorationBitFlag::LeftSideBar,
            Rectangle::new(0, height - 0 - height, s, height),
        );
        let mut right_side_bar = Decoration::new(
            DecorationBitFlag::RightSideBar,
            Rectangle::new(s + content_width, height - 0 - height, s, height),
        );
        if self.is_maximized {
            top_side_bar.visibility = false;
            bottom_side_bar.visibility = false;
            left_side_bar.visibility = false;
            right_side_bar.visibility = false;
        }
        let mut buttons = Self::make_buttons(&title_bar);
        let mut decorations: Vec<Decoration> = Vec::new();
        decorations.push(title_bar);
        decorations.push(top_side_bar);
        decorations.push(bottom_side_bar);
        decorations.push(left_side_bar);
        decorations.push(right_side_bar);
        decorations.append(&mut buttons);
        self.decorations = decorations;
        self.window_rect = Rectangle::new(0, 0, width, height);
        self.content_rect = Rectangle::new(content_x, content_y, content_width, content_height);
    }
}

/// Whether the part is one of the title bar and its buttons.
pub open spec fn is_title_part(id: DecorationBitFlag) -> bool {
    id == DecorationBitFlag::TitleBar || id == DecorationBitFlag::CloseButton || id
        == DecorationBitFlag::MaximizeButton || id == DecorationBitFlag::MinimizeButton
}

/// When only the title bar and its buttons are visible, no side-bar bit is
/// ever set.
proof fn lemma_title_parts_only(decos: Seq<Decoration>, px: int, py: int)
    requires
        forall|i: int| 0 <= i < decos.len() && (#[trigger] decos[i]).visibility ==> is_title_part(decos[i].id),
    ensures
        parts_holding(decos, px, py) & 30u32 == 0,
    decreases decos.len(),
{
    if decos.len() > 0 {
        let init = decos.drop_last();
        assert forall|i: int| 0 <= i < init.len() && (#[trigger] init[i]).visibility implies is_title_part(init[i].id) by {
            assert(init[i] == decos[i]);
        }
        lemma_title_parts_only(init, px, py);
        let rest = parts_holding(init, px, py);
        let d = decos.last();
        assert(d == decos[decos.len() - 1]);
        if rect_contains(d.rect, px, py) && d.visibility {
            let b = flag_bit(d.id);
            assert(b == 1 || b == 32 || b == 64 || b == 128);
            assert(rest & 30u32 == 0 && (b == 1 || b == 32 || b == 64 || b == 128) ==> (rest | b) & 30u32 == 0)
                by (bit_vector);
        }
    } else {
        assert(0u32 & 30u32 == 0) by (bit_vector);
    }
}

/// In a maximized window no point of the frame is over an edge or corner by
/// which the window could be resized.
pub proof fn law_maximized_frame_has_no_edges(w: int, h: int, t: int, s: int, px: int, py: int)
    ensures
        !(area_of(parts_holding(resized_frame_decorations(w, h, t, s, true), px, py)) is Edge),
{
    let decos = resized_frame_decorations(w, h, t, s, true);
    let (cx, cy, cw, ch) = content_of(w, h, t, s, true);
    let title = rect(cx, h - (cy - t) - t, cw, t);
    assert forall|i: int| 0 <= i < decos.len() && (#[trigger] decos[i]).visibility implies is_title_part(decos[i].id) by {
        if i >= 5 {
            assert(decos[i] == button_decorations(title)[i - 5]);
        }
    }
    lemma_title_parts_only(decos, px, py);
    let v = parts_holding(decos, px, py);
    assert(v & 30u32 == 0 ==> v != 16 && v != 8 && v != 2 && v != 4 && v != (16u32 | 8u32) && v != (16u32 | 2u32)
        && v != (4u32 | 8u32) && v != (4u32 | 2u32)) by (bit_vector);
}

/// No part holds a point that no visible part's rectangle holds.
proof fn lemma_parts_holding_none(decos: Seq<Decoration>, px: int, py: int)
    requires
        forall|i: int|
            0 <= i < decos.len() ==> !((#[trigger] decos[i]).visibility && rect_contains(decos[i].rect, px, py)),
    ensures
        parts_holding(decos, px, py) == 0,
    decreases decos.len(),
{
    if decos.len() > 0 {
        let init = decos.drop_last();
        assert forall|i: int| 0 <= i < init.len() implies !((#[trigger] init[i]).visibility && rect_contains(
            init[i].rect,
            px,
            py,
        )) by {
            assert(init[i] == decos[i]);
        }
        lemma_parts_holding_none(init, px, py);
        assert(decos.last() == decos[decos.len() - 1]);
    }
}

/// The empty set of parts stands for no area.
proof fn lemma_area_of_empty()
    ensures
        area_of(0) == DecorationArea::NoDecoration,
{
    assert(1u32 | 32u32 != 0 && 1u32 | 64u32 != 0 && 1u32 | 128u32 != 0 && 16u32 | 8u32 != 0 && 16u32 | 2u32 != 0
        && 4u32 | 8u32 != 0 && 4u32 | 2u32 != 0) by (bit_vector);
}

/// The buttons of a title bar at least 20 high lie above its lower edge.
proof fn lemma_buttons_above(title: Rectangle, px: int, py: int)
    requires
        buttons_fit(title),
        title.height >= 20,
        py < title.y,
    ensures
        forall|i: int|
            0 <= i < 3 ==> !rect_contains((#[trigger] button_decorations(title)[i]).rect, px, py),
{
    let by = title.y + half_toward_zero(title.height as int) - 10;
    assert(by >= title.y);
    assert(by as i32 == by);
}

/// A point of the content of a new frame, in window coordinates with `y`
/// growing downwards, is over no part of the frame.
pub proof fn law_new_frame_content_undecorated(cw: int, ch: int, t: int, s: int, x: int, y: int)
    requires
        new_frame_fits(cw, ch, t, s),
        t >= 20,
        0 <= s <= t,
        s <= x < s + cw,
        t <= y < t + ch,
    ensures
        parts_holding(new_frame_decorations(cw, ch, t, s), x, (ch + 2 * s + t) - y - 1) == 0,
        area_of(parts_holding(new_frame_decorations(cw, ch, t, s), x, (ch + 2 * s + t) - y - 1))
            == DecorationArea::NoDecoration,
{
    let h = ch + 2 * s + t;
    let fy = h - y - 1;
    let decos = new_frame_decorations(cw, ch, t, s);
    let title = rect(0, h - t, cw, t);
    lemma_buttons_above(title, x, fy);
    assert forall|i: int| 0 <= i < decos.len() implies !((#[trigger] decos[i]).visibility && rect_contains(
        decos[i].rect,
        x,
        fy,
    )) by {
        if i >= 5 {
            assert(decos[i] == button_decorations(title)[i - 5]);
        }
    }
    lemma_parts_holding_none(decos, x, fy);
    lemma_area_of_empty();
}

/// A point of the content of a resized frame, in window coordinates with `y`
/// growing downwards, is over no part of the frame.
pub proof fn law_resized_frame_content_undecorated(
    w: int,
    h: int,
    t: int,
    s: int,
    maximized: bool,
    x: int,
    y: int,
)
    requires
        resized_frame_fits(w, h, t, s, maximized),
        t >= 20,
        s >= 0,
        ({
            let (cx, cy, cw, ch) = content_of(w, h, t, s, maximized);
            cx <= x < cx + cw && cy <= y < cy + ch
        }),
    ensures
        parts_holding(resized_frame_decorations(w, h, t, s, maximized), x, h - y - 1) == 0,
        area_of(parts_holding(resized_frame_decorations(w, h, t, s, maximized), x, h - y - 1))
            == DecorationArea::NoDecoration,
{
    let fy = h - y - 1;
    let decos = resized_frame_decorations(w, h, t, s, maximized);
    let (cx, cy, cw, ch) = content_of(w, h, t, s, maximized);
    let title = rect(cx, h - (cy - t) - t, cw, t);
    lemma_buttons_above(title, x, fy);
    assert forall|i: int| 0 <= i < decos.len() implies !((#[trigger] decos[i]).visibility && rect_contains(
        decos[i].rect,
        x,
        fy,
    )) by {
        if i >= 5 {
            assert(decos[i] == button_decorations(title)[i - 5]);
        }
    }
    lemma_parts_holding_none(decos, x, fy);
    lemma_area_of_empty();
}

} // verus!
