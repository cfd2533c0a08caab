use vstd::prelude::*;

use crate::canvas::{Canvas, PixelPos, frame_index, lemma_frame_index_injective};
use crate::pixel::{Pixel, rgb};

verus! {

/// `r` is `m * k / len` rounded to the nearest integer, halves rounded down.
pub open spec fn nearest(m: int, k: int, len: int, r: int) -> bool {
    len * (2 * r - 1) < 2 * m * k && 2 * m * k <= len * (2 * r + 1)
}

/// Steps along the major axis (`k`) and across it (`r`) of the pixel `(x, y)`,
/// for a line that starts at `(px, py)` and falls in the given octant:
/// 0 steep rising, 1 shallow rising, 2 shallow falling, 3 steep falling.
pub open spec fn line_steps(octant: int, px: int, py: int, x: int, y: int) -> (int, int) {
    if octant == 0 {
        (y - py, x - px)
    } else if octant == 1 {
        (x - px, y - py)
    } else if octant == 2 {
        (x - px, py - y)
    } else {
        (py - y, x - px)
    }
}

/// The pixel that lies `k` steps along and `r` steps across the line.
pub open spec fn line_point(octant: int, px: int, py: int, k: int, r: int) -> (int, int) {
    if octant == 0 {
        (px + r, py + k)
    } else if octant == 1 {
        (px + k, py + r)
    } else if octant == 2 {
        (px + k, py - r)
    } else {
        (px + r, py - k)
    }
}

/// Whether the first `n` pixels of the line from `(px, py)` in the given
/// octant, `len` steps long and rising `m` across, include `(x, y)`.
pub open spec fn covers_prefix(octant: int, px: int, py: int, len: int, m: int, n: int, x: int, y: int) -> bool {
    let (k, r) = line_steps(octant, px, py, x, y);
    0 <= k < n && nearest(m, k, len, r)
}

/// The octant of the segment from `p` to `q` with `p.x <= q.x`, or -1 when
/// the two points coincide.
pub open spec fn octant_of(dx: int, dy: int) -> int {
    if dy > dx {
        0
    } else if dy > 0 {
        1
    } else if dy > -dx {
        2
    } else if dy < 0 {
        3
    } else {
        -1
    }
}

/// Length of the line along its major axis and its rise across it.
pub open spec fn octant_extent(octant: int, dx: int, dy: int) -> (int, int) {
    if octant == 0 {
        (dy, dx)
    } else if octant == 1 {
        (dx, dy)
    } else if octant == 2 {
        (dx, -dy)
    } else {
        (-dy, dx)
    }
}

/// Whether the midpoint rasterisation of the segment between `a` and `b`
/// paints `(x, y)`: along the major axis every position from one end to the
/// other gets one pixel, placed at the line's exact position across that axis
/// rounded to the nearest pixel, with ties going to the lower of the two
/// candidates when the line rises and to the higher one when it falls.  Two
/// coinciding end points paint nothing.
pub open spec fn on_segment(a: PixelPos, b: PixelPos, x: int, y: int) -> bool {
    let (p, q) = if a.x <= b.x { (a, b) } else { (b, a) };
    let dx = q.x - p.x;
    let dy = q.y - p.y;
    let o = octant_of(dx, dy);
    let (len, m) = octant_extent(o, dx, dy);
    o >= 0 && covers_prefix(o, p.x as int, p.y as int, len, m, len + 1, x, y)
}

/// The rounded position is unique.
pub proof fn lemma_nearest_unique(m: int, k: int, len: int, r1: int, r2: int)
    requires
        len > 0,
        nearest(m, k, len, r1),
        nearest(m, k, len, r2),
    ensures
        r1 == r2,
{
    assert(r1 <= r2) by (nonlinear_arith)
        requires
            len > 0,
            len * (2 * r1 - 1) < 2 * m * k,
            2 * m * k <= len * (2 * r2 + 1),
    ;
    assert(r2 <= r1) by (nonlinear_arith)
        requires
            len > 0,
            len * (2 * r2 - 1) < 2 * m * k,
            2 * m * k <= len * (2 * r1 + 1),
    ;
}

/// One step of the midpoint recurrence: the sign of the decision value picks
/// the rounded position of the next step, and the decision value is updated by
/// a constant.
pub proof fn lemma_midpoint_step(len: int, m: int, k: int, r: int, e: int)
    requires
        len > 0,
        0 <= m <= len,
        0 <= k,
        nearest(m, k, len, r),
        e == len * (2 * r + 1) - 2 * m * (k + 1),
    ensures
        0 <= r,
        k <= len ==> r <= m,
        -2 * m <= e < 2 * len,
        e < 0 ==> nearest(m, k + 1, len, r + 1),
        e < 0 ==> e + 2 * len - 2 * m == len * (2 * (r + 1) + 1) - 2 * m * (k + 2),
        e >= 0 ==> nearest(m, k + 1, len, r),
        e >= 0 ==> e - 2 * m == len * (2 * r + 1) - 2 * m * (k + 2),
{
    assert(0 <= r) by (nonlinear_arith)
        requires
            len > 0,
            0 <= m,
            0 <= k,
            2 * m * k <= len * (2 * r + 1),
    ;
    assert(k <= len ==> r <= m) by (nonlinear_arith)
        requires
            len > 0,
            0 <= m,
            0 <= k,
            len * (2 * r - 1) < 2 * m * k,
    ;
    assert(len * (2 * r + 1) - 2 * m * (k + 1) == (len * (2 * r + 1) - 2 * m * k) - 2 * m)
        by (nonlinear_arith);
    assert(len * (2 * (r + 1) + 1) == len * (2 * r + 1) + 2 * len) by (nonlinear_arith);
    assert(len * (2 * (r + 1) - 1) == len * (2 * r + 1)) by (nonlinear_arith);
    assert(2 * m * (k + 1) == 2 * m * k + 2 * m) by (nonlinear_arith);
    assert(2 * m * (k + 2) == 2 * m * k + 4 * m) by (nonlinear_arith);
    assert(len * (2 * r - 1) == len * (2 * r + 1) - 2 * len) by (nonlinear_arith);
}

/// Drawing the pixel `k` steps along the line extends the covered prefix by
/// exactly that pixel.
pub proof fn lemma_covers_extend(
    o: int,
    px: int,
    py: int,
    len: int,
    m: int,
    k: int,
    r: int,
    x: int,
    y: int,
)
    requires
        0 <= o <= 3,
        len > 0,
        0 <= k,
        nearest(m, k, len, r),
    ensures
        covers_prefix(o, px, py, len, m, k + 1, x, y) == (covers_prefix(o, px, py, len, m, k, x, y)
            || (x, y) == line_point(o, px, py, k, r)),
{
    let (kk, rr) = line_steps(o, px, py, x, y);
    if kk == k && nearest(m, k, len, rr) {
        lemma_nearest_unique(m, k, len, r, rr);
    }
}

/// A segment paints the same pixels whichever of its end points comes first.
pub proof fn law_segment_symmetric(a: PixelPos, b: PixelPos, x: int, y: int)
    ensures
        on_segment(a, b, x, y) == on_segment(b, a, x, y),
{
    if a.x == b.x && a.y != b.y {
        let (lo, hi) = if a.y < b.y { (a, b) } else { (b, a) };
        let len = hi.y - lo.y;
        assert(len > 0);
        // Both orders walk the same vertical run with no step across it.
        assert forall|k: int, r: int| nearest(0, k, len, r) <==> r == 0 by {
            if nearest(0, k, len, r) {
                assert(r == 0) by (nonlinear_arith)
                    requires
                        len > 0,
                        len * (2 * r - 1) < 2 * 0 * k,
                        2 * 0 * k <= len * (2 * r + 1),
                ;
            }
            if r == 0 {
                assert(nearest(0, k, len, r)) by (nonlinear_arith)
                    requires
                        len > 0,
                        r == 0,
                ;
            }
        }
    }
}

/// A segment between two distinct positions paints both of its end points.
pub proof fn law_segment_ends_painted(a: PixelPos, b: PixelPos)
    requires
        a != b,
    ensures
        on_segment(a, b, a.x as int, a.y as int),
        on_segment(a, b, b.x as int, b.y as int),
{
    let (p, q) = if a.x <= b.x { (a, b) } else { (b, a) };
    let dx = q.x - p.x;
    let dy = q.y - p.y;
    let o = octant_of(dx, dy);
    let (len, m) = octant_extent(o, dx, dy);
    assert(o >= 0);
    assert(len > 0);
    assert(nearest(m, 0, len, 0)) by (nonlinear_arith)
        requires
            len > 0,
            0 <= m,
    ;
    assert(nearest(m, len, len, m)) by (nonlinear_arith)
        requires
            len > 0,
    ;
}

/// Whether `after` is `before` with the segment from `a` to `b` drawn in
/// white: the size stays, the pixels the segment paints turn white, and
/// every other pixel is left as it was.
pub open spec fn line_drawn(before: Canvas, after: Canvas, a: PixelPos, b: PixelPos) -> bool {
    &&& after.wf()
    &&& after.spec_width() == before.spec_width()
    &&& after.spec_height() == before.spec_height()
    &&& forall|x: int, y: int|
        #![trigger after.pixel_at(x, y)]
        before.spec_in_bounds(x, y) ==> after.pixel_at(x, y) == if on_segment(a, b, x, y) {
            rgb(255, 255, 255)
        } else {
            before.pixel_at(x, y)
        }
}

/// Drawing a segment from `a` to `b` or from `b` to `a` on the same canvas
/// gives the same frame buffer.
pub proof fn law_draw_line_symmetric(before: Canvas, c1: Canvas, c2: Canvas, a: PixelPos, b: PixelPos)
    requires
        before.wf(),
        line_drawn(before, c1, a, b),
        line_drawn(before, c2, b, a),
    ensures
        c1.frame() == c2.frame(),
{
    let w = before.spec_width() as int;
    let h = before.spec_height() as int;
    c1.lemma_wf();
    c2.lemma_wf();
    assert forall|i: int| 0 <= i < c1.frame().len() implies c1.frame()[i] == c2.frame()[i] by {
        assert(w > 0) by (nonlinear_arith)
            requires
                0 <= i < w * h,
                h >= 0,
        ;
        let q = i / w;
        let x = i % w;
        vstd::arithmetic::div_mod::lemma_fundamental_div_mod(i, w);
        assert(0 <= q < h) by (nonlinear_arith)
            requires
                w > 0,
                0 <= i < w * h,
                i == w * q + x,
                0 <= x < w,
        ;
        let y = h - 1 - q;
        assert(frame_index(w, h, x, y) == i) by (nonlinear_arith)
            requires
                i == w * q + x,
                y == h - 1 - q,
        ;
        assert(before.spec_in_bounds(x, y));
        law_segment_symmetric(a, b, x, y);
        assert(c1.pixel_at(x, y) == c2.pixel_at(x, y));
    }
    assert(c1.frame() =~= c2.frame());
}

impl Canvas {
    /// Draws the segment between two pixel positions in white with the
    /// midpoint algorithm; every other pixel is left unchanged.
    pub fn draw_line(&mut self, a: PixelPos, b: PixelPos)
        requires
            old(self).wf(),
            old(self).spec_in_bounds(a.x as int, a.y as int),
            old(self).spec_in_bounds(b.x as int, b.y as int),
        ensures
            line_drawn(*old(self), *final(self), a, b),
    {
        let dx: i128 = b.x as i128 - a.x as i128;
        let dy: i128 = b.y as i128 - a.y as i128;
        // The slope dy / dx, classified without dividing; it is the same for
        // both orders of the end points.
        let (sx, sy) = if dx < 0 {
            (-dx, -dy)
        } else {
            (dx, dy)
        };
        if sy > sx {
            self.midpoint_draw(a, b, 0);
        } else if sy > 0 {
            self.midpoint_draw(a, b, 1);
        } else if sy > -sx {
            self.midpoint_draw(a, b, 2);
        } else if sy < 0 {
            self.midpoint_draw(a, b, 3);
        } else {
            // Coinciding end points: the slope is undefined and nothing is drawn.
            proof {
                assert forall|x: int, y: int| old(self).spec_in_bounds(x, y) implies !on_segment(a, b, x, y) by {}
            }
        }
    }

    /// Draws the segment in the given octant, stepping along its major axis
    /// from the end point with the smaller `x`.
    fn midpoint_draw(&mut self, a0: PixelPos, b0: PixelPos, idx: u8)
        requires
            old(self).wf(),
            old(self).spec_in_bounds(a0.x as int, a0.y as int),
            old(self).spec_in_bounds(b0.x as int, b0.y as int),
            idx <= 3,
            ({
                let (p, q) = if a0.x <= b0.x { (a0, b0) } else { (b0, a0) };
                octant_of(q.x - p.x, q.y - p.y) == idx
            }),
        ensures
            final(self).wf(),
            final(self).spec_width() == old(self).spec_width(),
            final(self).spec_height() == old(self).spec_height(),
            forall|x: int, y: int|
                #![trigger final(self).pixel_at(x, y)]
                old(self).spec_in_bounds(x, y) ==> final(self).pixel_at(x, y) == if on_segment(
                    a0,
                    b0,
                    x,
                    y,
                ) {
                    rgb(255, 255, 255)
                } else {
                    old(self).pixel_at(x, y)
                },
    {
        let (a, b) = if a0.x <= b0.x {
            (a0, b0)
        } else {
            (b0, a0)
        };
        let px: i128 = a.x as i128;
        let py: i128 = a.y as i128;
        let dx: i128 = b.x as i128 - px;
        let dy: i128 = b.y as i128 - py;
        let ghost o = idx as int;
        // Length along the major axis and rise across it.
        let (len, m): (i128, i128) = if idx == 0 {
            (dy, dx)
        } else if idx == 1 {
            (dx, dy)
        } else if idx == 2 {
            (dx, -dy)
        } else {
            (-dy, dx)
        };
        assert((len as int, m as int) == octant_extent(o, dx as int, dy as int));
        let mut k: i128 = 0;
        let mut r: i128 = 0;
        let mut d: i128 = len - 2 * m;
        let ghost w = self.spec_width() as int;
        let ghost h = self.spec_height() as int;
        proof {
            self.lemma_wf();
            assert(w <= usize::MAX && h <= usize::MAX) by (nonlinear_arith)
                requires
                    w >= 1,
                    h >= 1,
                    w * h <= usize::MAX,
            ;
            assert(len * (2 * 0 - 1) < 2 * m * 0 && 2 * m * 0 <= len * (2 * 0 + 1)) by (nonlinear_arith)
                requires
                    len > 0,
            ;
            assert(d == len * (2 * 0 + 1) - 2 * m * (0 + 1)) by (nonlinear_arith)
                requires
                    d == len - 2 * m,
            ;
        }
        while k <= len
            invariant
                self.wf(),
                self.spec_width() == w,
                self.spec_height() == h,
                w == old(self).spec_width(),
                h == old(self).spec_height(),
                w <= usize::MAX,
                h <= usize::MAX,
                0 <= o <= 3,
                o == idx,
                0 <= px < w,
                0 <= py < h,
                0 <= px + dx < w,
                0 <= py + dy < h,
                dx >= 0,
                o == octant_of(dx as int, dy as int),
                (len as int, m as int) == octant_extent(o, dx as int, dy as int),
                len > 0,
                0 <= m <= len,
                0 <= k <= len + 1,
                nearest(m as int, k as int, len as int, r as int),
                d == len * (2 * r + 1) - 2 * m * (k + 1),
                forall|x: int, y: int|
                    #![trigger self.pixel_at(x, y)]
                    0 <= x < w && 0 <= y < h ==> self.pixel_at(x, y) == if covers_prefix(
                        o,
                        px as int,
                        py as int,
                        len as int,
                        m as int,
                        k as int,
                        x,
                        y,
                    ) {
                        rgb(255, 255, 255)
                    } else {
                        old(self).pixel_at(x, y)
                    },
            decreases len + 1 - k,
        {
            proof {
                lemma_midpoint_step(len as int, m as int, k as int, r as int, d as int);
            }
            let (x, y): (i128, i128) = if idx == 0 {
                (px + r, py + k)
            } else if idx == 1 {
                (px + k, py + r)
            } else if idx == 2 {
                (px + k, py - r)
            } else {
                (px + r, py - k)
            };
            assert((x as int, y as int) == line_point(o, px as int, py as int, k as int, r as int));
            let ghost before = *self;
            self.draw_pixel_coord(x as usize, y as usize, Pixel::white());
            proof {
                assert forall|xx: int, yy: int|
                    0 <= xx < w && 0 <= yy < h implies #[trigger] self.pixel_at(xx, yy) == if covers_prefix(
                        o,
                        px as int,
                        py as int,
                        len as int,
                        m as int,
                        k + 1,
                        xx,
                        yy,
                    ) {
                        rgb(255, 255, 255)
                    } else {
                        old(self).pixel_at(xx, yy)
                    } by {
                    before.lemma_wf();
                    lemma_covers_extend(o, px as int, py as int, len as int, m as int, k as int, r as int, xx, yy);
                    if xx != x || yy != y {
                        lemma_frame_index_injective(w, h, xx, yy, x as int, y as int);
                    }
                    crate::canvas::lemma_frame_index_bounds(w, h, xx, yy);
                    crate::canvas::lemma_frame_index_bounds(w, h, x as int, y as int);
                    let fi = frame_index(w, h, xx, yy);
                    assert(self.pixel_at(xx, yy) == self.frame()[fi]);
                    if xx == x && yy == y {
                        assert(self.frame()[fi] == rgb(255, 255, 255));
                    } else {
                        assert(self.frame()[fi] == before.frame()[fi]);
                        assert(before.pixel_at(xx, yy) == before.frame()[fi]);
                    }
                }
            }
            if d < 0 {
                r = r + 1;
                d = d + 2 * len - 2 * m;
            } else {
                d = d - 2 * m;
            }
            k = k + 1;
        }
    }
}

} // verus!
