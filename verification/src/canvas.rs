use vstd::prelude::*;

use crate::pixel::{Pixel, rgb};

verus! {

/// Position of a pixel on the canvas; `y` grows upwards.
#[derive(Clone, Copy, Debug, PartialEq, Eq, Structural)]
pub struct PixelPos {
    pub x: usize,
    pub y: usize,
}

/// A frame buffer of `width * height` pixels.  Row 0 of the buffer is the top
/// row of the image, while the canvas coordinates put `y = 0` at the bottom.
pub struct Canvas {
    frame: Vec<Pixel>,
    width: usize,
    height: usize,
}

/// Index in the frame buffer of the pixel at `(x, y)` (bottom-up `y`).
pub open spec fn frame_index(width: int, height: int, x: int, y: int) -> int {
    (height - 1 - y) * width + x
}

/// Two distinct in-bounds positions never share a frame-buffer slot.
pub proof fn lemma_frame_index_injective(w: int, h: int, x1: int, y1: int, x2: int, y2: int)
    requires
        0 <= x1 < w,
        0 <= x2 < w,
        0 <= y1 < h,
        0 <= y2 < h,
        x1 != x2 || y1 != y2,
    ensures
        frame_index(w, h, x1, y1) != frame_index(w, h, x2, y2),
{
    let r1 = h - 1 - y1;
    let r2 = h - 1 - y2;
    if r1 == r2 {
    } else if r1 < r2 {
        assert(r1 * w + w <= r2 * w) by (nonlinear_arith)
            requires
                r1 < r2,
                w > 0,
        ;
    } else {
        assert(r2 * w + w <= r1 * w) by (nonlinear_arith)
            requires
                r2 < r1,
                w > 0,
        ;
    }
}

/// An in-bounds position has an in-bounds frame-buffer slot.
pub proof fn lemma_frame_index_bounds(w: int, h: int, x: int, y: int)
    requires
        0 <= x < w,
        0 <= y < h,
    ensures
        0 <= frame_index(w, h, x, y) < w * h,
{
    let r = h - 1 - y;
    assert(0 <= r * w + x < w * h) by (nonlinear_arith)
        requires
            0 <= r < h,
            0 <= x < w,
    ;
}

impl Canvas {
    /// The frame buffer holds exactly one pixel per position.
    pub closed spec fn wf(&self) -> bool {
        &&& self.frame@.len() == self.width * self.height
        &&& self.width * self.height <= usize::MAX
    }

    /// Width of the canvas in pixels.
    pub closed spec fn spec_width(&self) -> nat {
        self.width as nat
    }

    /// Height of the canvas in pixels.
    pub closed spec fn spec_height(&self) -> nat {
        self.height as nat
    }

    /// The frame buffer, row by row from the top row.
    pub closed spec fn frame(&self) -> Seq<Pixel> {
        self.frame@
    }

    /// What well-formedness says of the size of the frame buffer.
    pub proof fn lemma_wf(&self)
        requires
            self.wf(),
        ensures
            self.frame().len() == self.spec_width() * self.spec_height(),
            self.spec_width() * self.spec_height() <= usize::MAX,
    {
    }

    /// Whether `(x, y)` lies on the canvas.
    pub open spec fn spec_in_bounds(&self, x: int, y: int) -> bool {
        0 <= x < self.spec_width() && 0 <= y < self.spec_height()
    }

    /// The pixel shown at `(x, y)`.
    pub open spec fn pixel_at(&self, x: int, y: int) -> Pixel {
        self.frame()[frame_index(self.spec_width() as int, self.spec_height() as int, x, y)]
    }

    /// A black canvas of the given size.
    pub fn new(width: usize, height: usize) -> (c: Canvas)
        requires
            width * height <= usize::MAX,
        ensures
            c.wf(),
            c.spec_width() == width,
            c.spec_height() == height,
            forall|i: int| 0 <= i < width * height ==> #[trigger] c.frame()[i] == rgb(0, 0, 0),
    {
        let len: usize = width * height;
        let mut frame: Vec<Pixel> = Vec::new();
        let mut i: usize = 0;
        while i < len
            invariant
                i <= len,
                frame@.len() == i,
                forall|j: int| 0 <= j < i ==> #[trigger] frame@[j] == rgb(0, 0, 0),
            decreases len - i,
        {
            frame.push(Pixel::black());
            i = i + 1;
        }
        Canvas { frame, width, height }
    }

    pub fn width(&self) -> (w: usize)
        ensures
            w == self.spec_width(),
    {
        self.width
    }

    pub fn height(&self) -> (h: usize)
        ensures
            h == self.spec_height(),
    {
        self.height
    }

    /// Fills the whole canvas with the background colour.
    pub fn clear(&mut self)
        requires
            old(self).wf(),
        ensures
            final(self).wf(),
            final(self).spec_width() == old(self).spec_width(),
            final(self).spec_height() == old(self).spec_height(),
            final(self).frame().len() == old(self).frame().len(),
            forall|i: int|
                0 <= i < final(self).frame().len() ==> #[trigger] final(self).frame()[i]
                    == rgb(155, 186, 255),
    {
        let len = self.frame.len();
        let mut i: usize = 0;
        while i < len
            invariant
                i <= len,
                len == self.frame@.len(),
                self.frame@.len() == self.width * self.height,
                self.width == old(self).width,
                self.height == old(self).height,
                forall|j: int| 0 <= j < i ==> #[trigger] self.frame@[j] == rgb(155, 186, 255),
            decreases len - i,
        {
            self.frame.set(i, Pixel::azul_bb());
            i = i + 1;
        }
    }

    /// Whether `(x, y)` lies on the canvas.
    pub fn in_bounds(&self, x: usize, y: usize) -> (b: bool)
        ensures
            b == self.spec_in_bounds(x as int, y as int),
    {
        (x < self.width) && (y < self.height)
    }

    /// Sets the pixel at `(x, y)` and leaves every other pixel unchanged.
    pub fn draw_pixel_coord(&mut self, x: usize, y: usize, color: Pixel)
        requires
            old(self).wf(),
            old(self).spec_in_bounds(x as int, y as int),
        ensures
            final(self).wf(),
            final(self).spec_width() == old(self).spec_width(),
            final(self).spec_height() == old(self).spec_height(),
            final(self).frame() == old(self).frame().update(
                frame_index(old(self).spec_width() as int, old(self).spec_height() as int, x as int, y as int),
                color,
            ),
    {
        proof {
            lemma_frame_index_bounds(self.width as int, self.height as int, x as int, y as int);
        }
        let y_inv = self.height - y - 1;
        proof {
            assert(self.width * y_inv + x == frame_index(self.width as int, self.height as int, x as int, y as int))
                by (nonlinear_arith)
                requires
                    y_inv == self.height - y - 1,
            ;
        }
        let idx = self.width * y_inv + x;
        self.frame.set(idx, color);
    }

    /// Sets the pixel at the given position.
    pub fn draw_pixel(&mut self, pos: PixelPos, color: Pixel)
        requires
            old(self).wf(),
            old(self).spec_in_bounds(pos.x as int, pos.y as int),
        ensures
            final(self).wf(),
            final(self).spec_width() == old(self).spec_width(),
            final(self).spec_height() == old(self).spec_height(),
            final(self).frame() == old(self).frame().update(
                frame_index(old(self).spec_width() as int, old(self).spec_height() as int, pos.x as int, pos.y as int),
                color,
            ),
    {
        self.draw_pixel_coord(pos.x, pos.y, color);
    }

    /// Paints the pixel at the given position white.
    pub fn draw_white_dot(&mut self, pos: PixelPos)
        requires
            old(self).wf(),
            old(self).spec_in_bounds(pos.x as int, pos.y as int),
        ensures
            final(self).wf(),
            final(self).spec_width() == old(self).spec_width(),
            final(self).spec_height() == old(self).spec_height(),
            final(self).frame() == old(self).frame().update(
                frame_index(old(self).spec_width() as int, old(self).spec_height() as int, pos.x as int, pos.y as int),
                rgb(255, 255, 255),
            ),
    {
        self.draw_pixel(pos, Pixel::white());
    }

    /// Paints the pixel at the given position with the given colour.
    pub fn draw_dot(&mut self, pos: PixelPos, color: Pixel)
        requires
            old(self).wf(),
            old(self).spec_in_bounds(pos.x as int, pos.y as int),
        ensures
            final(self).wf(),
            final(self).spec_width() == old(self).spec_width(),
            final(self).spec_height() == old(self).spec_height(),
            final(self).frame() == old(self).frame().update(
                frame_index(old(self).spec_width() as int, old(self).spec_height() as int, pos.x as int, pos.y as int),
                color,
            ),
    {
        self.draw_pixel(pos, color);
    }

    /// The pixel at `(x, y)`.
    pub fn get_pixel_coord(&self, x: usize, y: usize) -> (p: Pixel)
        requires
            self.wf(),
            self.spec_in_bounds(x as int, y as int),
        ensures
            p == self.pixel_at(x as int, y as int),
    {
        proof {
            lemma_frame_index_bounds(self.width as int, self.height as int, x as int, y as int);
        }
        let y_inv = self.height - y - 1;
        proof {
            assert(self.width * y_inv + x == frame_index(self.width as int, self.height as int, x as int, y as int))
                by (nonlinear_arith)
                requires
                    y_inv == self.height - y - 1,
            ;
        }
        let idx = self.width * y_inv + x;
        self.frame[idx]
    }

    /// Number of bytes a pixel occupies in the frame buffer.
    pub fn pixel_bytes() -> (n: usize)
        ensures
            n == 4,
    {
        4
    }

    /// Number of bytes of the whole frame buffer.
    pub fn size_bytes(&self) -> (n: usize)
        requires
            4 * self.frame().len() <= usize::MAX,
        ensures
            n == 4 * self.frame().len(),
    {
        Self::pixel_bytes() * self.frame.len()
    }

    /// The frame buffer as bytes, four per pixel in the order blue, green,
    /// red, padding, row by row from the top row.
    pub fn as_bytes_slice(&self) -> (bytes: Vec<u8>)
        requires
            4 * self.frame().len() <= usize::MAX,
        ensures
            bytes@.len() == 4 * self.frame().len(),
            forall|i: int|
                0 <= i < self.frame().len() ==> {
                    &&& #[trigger] bytes@[4 * i] == self.frame()[i].b
                    &&& bytes@[4 * i + 1] == self.frame()[i].g
                    &&& bytes@[4 * i + 2] == self.frame()[i].r
                    &&& bytes@[4 * i + 3] == self.frame()[i].padd
                },
    {
        let mut bytes: Vec<u8> = Vec::new();
        let len = self.frame.len();
        let mut i: usize = 0;
        while i < len
            invariant
                i <= len,
                len == self.frame@.len(),
                4 * len <= usize::MAX,
                bytes@.len() == 4 * i,
                forall|j: int|
                    0 <= j < i ==> {
                        &&& #[trigger] bytes@[4 * j] == self.frame@[j].b
                        &&& bytes@[4 * j + 1] == self.frame@[j].g
                        &&& bytes@[4 * j + 2] == self.frame@[j].r
                        &&& bytes@[4 * j + 3] == self.frame@[j].padd
                    },
            decreases len - i,
        {
            let p = self.frame[i];
            let ghost before = bytes@;
            bytes.push(p.b);
            bytes.push(p.g);
            bytes.push(p.r);
            bytes.push(p.padd);
            proof {
                assert(bytes@ == before + seq![p.b, p.g, p.r, p.padd]);
                assert forall|j: int| 0 <= j < i + 1 implies {
                    &&& #[trigger] bytes@[4 * j] == self.frame@[j].b
                    &&& bytes@[4 * j + 1] == self.frame@[j].g
                    &&& bytes@[4 * j + 2] == self.frame@[j].r
                    &&& bytes@[4 * j + 3] == self.frame@[j].padd
                } by {
                    if j < i {
                        assert(before[4 * j] == self.frame@[j].b);
                    }
                }
            }
            i = i + 1;
        }
        bytes
    }
}

/// What is read back at a position is what was last drawn there, and
/// drawing at one position leaves every other position as it was.
pub proof fn law_read_after_draw(before: Canvas, after: Canvas, x: int, y: int, color: Pixel, x2: int, y2: int)
    requires
        before.wf(),
        after.wf(),
        after.spec_width() == before.spec_width(),
        after.spec_height() == before.spec_height(),
        before.spec_in_bounds(x, y),
        before.spec_in_bounds(x2, y2),
        after.frame() == before.frame().update(
            frame_index(before.spec_width() as int, before.spec_height() as int, x, y),
            color,
        ),
    ensures
        after.pixel_at(x, y) == color,
        x2 != x || y2 != y ==> after.pixel_at(x2, y2) == before.pixel_at(x2, y2),
{
    let w = before.spec_width() as int;
    let h = before.spec_height() as int;
    lemma_frame_index_bounds(w, h, x, y);
    lemma_frame_index_bounds(w, h, x2, y2);
    if x2 != x || y2 != y {
        lemma_frame_index_injective(w, h, x, y, x2, y2);
    }
}

} // verus!
