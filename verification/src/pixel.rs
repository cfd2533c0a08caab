use vstd::prelude::*;

verus! {

/// One pixel of a frame buffer, stored in the little-endian byte order that
/// the display expects: blue, green, red, then one byte of padding.
#[derive(Clone, Copy, Debug, PartialEq, Eq, Structural)]
pub struct Pixel {
    pub b: u8,
    pub g: u8,
    pub r: u8,
    pub padd: u8,
}

/// The named colours of the renderer.
#[derive(Clone, Copy, Debug, PartialEq, Eq, Structural)]
pub enum Color {
    White,
    Black,
    Red,
    Green,
    Blue,
    Grey,
}

/// The pixel with the given colour channels and a zero padding byte.
pub open spec fn rgb(r: u8, g: u8, b: u8) -> Pixel {
    Pixel { b, g, r, padd: 0 }
}

/// The red, green and blue channels of the pixel of each named colour.
pub open spec fn color_rgb(c: Color) -> (u8, u8, u8) {
    match c {
        Color::White => (255, 255, 255),
        Color::Black => (0, 0, 0),
        Color::Red => (255, 0, 0),
        Color::Green => (0, 255, 0),
        Color::Blue => (0, 0, 255),
        Color::Grey => (128, 128, 128),
    }
}

/// Channel-wise product of two colours given as fractions of 255, scaled back
/// to 0..=255 and rounded down.
pub open spec fn blend_channel(a: u8, b: u8) -> int {
    (a as int * b as int) / 255
}

impl Color {
    /// The pixel of this colour.
    pub fn as_pixel(&self) -> (p: Pixel)
        ensures
            p == rgb(color_rgb(*self).0, color_rgb(*self).1, color_rgb(*self).2),
    {
        match self {
            Color::White => Pixel::white(),
            Color::Black => Pixel::black(),
            Color::Red => Pixel::red(),
            Color::Green => Pixel::green(),
            Color::Blue => Pixel::blue(),
            Color::Grey => Pixel::new(128, 128, 128),
        }
    }
}

impl Pixel {
    pub fn new(r: u8, g: u8, b: u8) -> (p: Pixel)
        ensures
            p == rgb(r, g, b),
    {
        Pixel { b, g, r, padd: 0 }
    }

    /// Multiplies the two colours channel by channel, each channel read as a
    /// fraction of 255; the padding byte of the result is zero.
    pub fn blend(a: Pixel, b: Pixel) -> (p: Pixel)
        ensures
            p.r == blend_channel(a.r, b.r),
            p.g == blend_channel(a.g, b.g),
            p.b == blend_channel(a.b, b.b),
            p.padd == 0,
    {
        Pixel::new(mul_channel(a.r, b.r), mul_channel(a.g, b.g), mul_channel(a.b, b.b))
    }

    pub fn set_red(&mut self, r: u8)
        ensures
            *final(self) == (Pixel { r, ..*old(self) }),
    {
        self.r = r;
    }

    pub fn set_green(&mut self, g: u8)
        ensures
            *final(self) == (Pixel { g, ..*old(self) }),
    {
        self.g = g;
    }

    pub fn set_blue(&mut self, b: u8)
        ensures
            *final(self) == (Pixel { b, ..*old(self) }),
    {
        self.b = b;
    }

    pub fn set_padd(&mut self, p: u8)
        ensures
            *final(self) == (Pixel { padd: p, ..*old(self) }),
    {
        self.padd = p;
    }

    pub fn red() -> (p: Pixel)
        ensures
            p == rgb(255, 0, 0),
    {
        Pixel::new(255, 0, 0)
    }

    pub fn green() -> (p: Pixel)
        ensures
            p == rgb(0, 255, 0),
    {
        Pixel::new(0, 255, 0)
    }

    pub fn blue() -> (p: Pixel)
        ensures
            p == rgb(0, 0, 255),
    {
        Pixel::new(0, 0, 255)
    }

    pub fn white() -> (p: Pixel)
        ensures
            p == rgb(255, 255, 255),
    {
        Pixel::new(255, 255, 255)
    }

    pub fn black() -> (p: Pixel)
        ensures
            p == rgb(0, 0, 0),
    {
        Pixel::new(0, 0, 0)
    }

    /// The light blue that a cleared canvas is filled with.
    pub fn azul_bb() -> (p: Pixel)
        ensures
            p == rgb(155, 186, 255),
    {
        Pixel::new(155, 186, 255)
    }

    /// Channel-wise sum of two pixels; the padding byte of the result is zero.
    pub fn add(self, rhs: Pixel) -> (p: Pixel)
        requires
            self.r + rhs.r <= 255,
            self.g + rhs.g <= 255,
            self.b + rhs.b <= 255,
        ensures
            p == rgb((self.r + rhs.r) as u8, (self.g + rhs.g) as u8, (self.b + rhs.b) as u8),
    {
        Pixel { r: self.r + rhs.r, g: self.g + rhs.g, b: self.b + rhs.b, padd: 0 }
    }

    /// The four bytes of this pixel in frame-buffer order.
    pub fn to_bytes(&self) -> (bytes: [u8; 4])
        ensures
            bytes@ == seq![self.b, self.g, self.r, self.padd],
    {
        [self.b, self.g, self.r, self.padd]
    }
}

/// Blending is symmetric in its two colours.
pub proof fn law_blend_commutative(a: u8, b: u8)
    ensures
        blend_channel(a, b) == blend_channel(b, a),
{
    assert(a as int * b as int == b as int * a as int) by (nonlinear_arith);
}

/// Blending with full intensity keeps a channel, and blending with zero
/// intensity clears it.
pub proof fn law_blend_white_black(a: u8)
    ensures
        blend_channel(a, 255) == a,
        blend_channel(a, 0) == 0,
{
    assert(a as int * 255 == 255 * a as int);
}

/// `a * b / 255`, rounded down, for two channels.
fn mul_channel(a: u8, b: u8) -> (c: u8)
    ensures
        c == blend_channel(a, b),
{
    proof {
        assert(a as int * b as int <= 255 * 255) by (nonlinear_arith)
            requires
                a <= 255,
                b <= 255,
        ;
    }
    let prod: u32 = (a as u32) * (b as u32);
    (prod / 255) as u8
}

} // verus!
