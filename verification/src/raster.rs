use vstd::prelude::*;

verus! {

/// A corner of a triangle on the pixel grid, possibly off the canvas.
#[derive(Clone, Copy, Debug, PartialEq, Eq, Structural)]
pub struct ScreenPoint {
    pub x: i32,
    pub y: i32,
}

/// Value at `(x, y)` of the edge function of the directed line from `p` to
/// `q`: zero on the line, of one sign on each side of it, and twice the
/// signed area of the triangle `p q (x, y)`.
pub open spec fn edge(p: ScreenPoint, q: ScreenPoint, x: int, y: int) -> int {
    (p.y - q.y) * x + (q.x - p.x) * y + p.x * q.y - q.x * p.y
}

/// Twice the signed area of the triangle `a b c`.
pub open spec fn doubled_area(a: ScreenPoint, b: ScreenPoint, c: ScreenPoint) -> int {
    edge(b, c, a.x as int, a.y as int)
}

/// Whether an edge lets a pixel through: the pixel's edge value `e` has the
/// sign of the triangle's doubled area `d`, or is zero when the value `out`
/// of the edge at `(-1, -1)`, a point off the canvas, has that sign.
pub open spec fn edge_admits(e: int, d: int, out: int) -> bool {
    ||| (e > 0 && d > 0)
    ||| (e < 0 && d < 0)
    ||| (e == 0 && ((out > 0 && d > 0) || (out < 0 && d < 0)))
}

/// Whether the triangle `a b c` covers the pixel `(x, y)`: its area is not
/// zero and each of its three edges lets the pixel through.
pub open spec fn covers(a: ScreenPoint, b: ScreenPoint, c: ScreenPoint, x: int, y: int) -> bool {
    let d = doubled_area(a, b, c);
    &&& d != 0
    &&& edge_admits(edge(b, c, x, y), d, edge(b, c, -1, -1))
    &&& edge_admits(edge(c, a, x, y), d, edge(c, a, -1, -1))
    &&& edge_admits(edge(a, b, x, y), d, edge(a, b, -1, -1))
}

/// A coordinate converted to a pixel index, negative values becoming 0.
pub open spec fn saturate(v: int) -> int {
    if v < 0 {
        0
    } else {
        v
    }
}

pub open spec fn min3(u: int, v: int, w: int) -> int {
    if u <= v && u <= w {
        u
    } else if v <= w {
        v
    } else {
        w
    }
}

pub open spec fn max3(u: int, v: int, w: int) -> int {
    if u >= v && u >= w {
        u
    } else if v >= w {
        v
    } else {
        w
    }
}

/// The covered pixels among the first `n` pixels of row `y` from column `x0`,
/// from left to right.
pub open spec fn covered_row(a: ScreenPoint, b: ScreenPoint, c: ScreenPoint, x0: int, y: int, n: nat) -> Seq<(int, int)>
    decreases n,
{
    if n == 0 {
        Seq::empty()
    } else {
        let prev = covered_row(a, b, c, x0, y, (n - 1) as nat);
        let x = x0 + n - 1;
        if covers(a, b, c, x, y) {
            prev.push((x, y))
        } else {
            prev
        }
    }
}

/// The covered pixels of the first `m` rows from row `y0`, each `nx` pixels
/// wide from column `x0`, row after row from the bottom.
pub open spec fn covered_rows(a: ScreenPoint, b: ScreenPoint, c: ScreenPoint, x0: int, nx: nat, y0: int, m: nat) -> Seq<(int, int)>
    decreases m,
{
    if m == 0 {
        Seq::empty()
    } else {
        covered_rows(a, b, c, x0, nx, y0, (m - 1) as nat) + covered_row(a, b, c, x0, y0 + m - 1, nx)
    }
}

/// The pixels of the bounding box of the triangle, cut at zero, that the
/// triangle covers, in the order the rasterizer visits them: row by row from
/// the lowest, and from left to right within a row.
pub open spec fn triangle_pixels(a: ScreenPoint, b: ScreenPoint, c: ScreenPoint) -> Seq<(int, int)> {
    let x0 = saturate(min3(a.x as int, b.x as int, c.x as int));
    let x1 = saturate(max3(a.x as int, b.x as int, c.x as int));
    let y0 = saturate(min3(a.y as int, b.y as int, c.y as int));
    let y1 = saturate(max3(a.y as int, b.y as int, c.y as int));
    covered_rows(a, b, c, x0, (x1 - x0 + 1) as nat, y0, (y1 - y0 + 1) as nat)
}

/// A pixel covered by a triangle, with the barycentric weights of the three
/// corners scaled by twice the triangle's signed area.
#[derive(Clone, Copy, Debug, PartialEq, Eq, Structural)]
pub struct Fragment {
    pub x: usize,
    pub y: usize,
    pub w_a: i128,
    pub w_b: i128,
    pub w_c: i128,
}

spec fn small(v: int) -> bool {
    -0x8000_0000 <= v <= 0x8000_0000
}

fn edge_at(px: i128, py: i128, qx: i128, qy: i128, x: i128, y: i128) -> (e: i128)
    requires
        small(px as int),
        small(py as int),
        small(qx as int),
        small(qy as int),
        small(x as int),
        small(y as int),
    ensures
        e == (py - qy) * x + (qx - px) * y + px * qy - qx * py,
{
    let ghost bound: int = 0x8000_0000int;
    proof {
        assert(-2 * bound <= py - qy <= 2 * bound);
        assert(-2 * bound <= qx - px <= 2 * bound);
        assert(-2 * bound * bound <= (py - qy) * x <= 2 * bound * bound) by (nonlinear_arith)
            requires
                -2 * bound <= py - qy <= 2 * bound,
                -bound <= x <= bound,
                bound > 0,
        ;
        assert(-2 * bound * bound <= (qx - px) * y <= 2 * bound * bound) by (nonlinear_arith)
            requires
                -2 * bound <= qx - px <= 2 * bound,
                -bound <= y <= bound,
                bound > 0,
        ;
        assert(-bound * bound <= px * qy <= bound * bound) by (nonlinear_arith)
            requires
                -bound <= px <= bound,
                -bound <= qy <= bound,
                bound > 0,
        ;
        assert(-bound * bound <= qx * py <= bound * bound) by (nonlinear_arith)
            requires
                -bound <= qx <= bound,
                -bound <= py <= bound,
                bound > 0,
        ;
        assert(bound * bound < 0x1_0000_0000_0000_0000_0000);
    }
    (py - qy) * x + (qx - px) * y + px * qy - qx * py
}

fn admits(e: i128, d: i128, out: i128) -> (r: bool)
    ensures
        r == edge_admits(e as int, d as int, out as int),
{
    (e > 0 && d > 0) || (e < 0 && d < 0) || (e == 0 && ((out > 0 && d > 0) || (out < 0 && d < 0)))
}

fn min3_of(u: i32, v: i32, w: i32) -> (m: usize)
    ensures
        m == saturate(min3(u as int, v as int, w as int)),
{
    let m = if u <= v && u <= w {
        u
    } else if v <= w {
        v
    } else {
        w
    };
    if m < 0 {
        0
    } else {
        m as usize
    }
}

fn max3_of(u: i32, v: i32, w: i32) -> (m: usize)
    ensures
        m == saturate(max3(u as int, v as int, w as int)),
{
    let m = if u >= v && u >= w {
        u
    } else if v >= w {
        v
    } else {
        w
    };
    if m < 0 {
        0
    } else {
        m as usize
    }
}

/// Twice the signed area of the triangle `a b c`.
pub fn triangle_doubled_area(a: ScreenPoint, b: ScreenPoint, c: ScreenPoint) -> (d: i128)
    ensures
        d == doubled_area(a, b, c),
{
    edge_at(b.x as i128, b.y as i128, c.x as i128, c.y as i128, a.x as i128, a.y as i128)
}

/// The pixels the triangle `a b c` covers within its bounding box (cut at
/// zero), row by row from the lowest and from left to right, each with the
/// scaled barycentric weights of the three corners: the weight of a corner is
/// the edge value of the opposite side at the pixel.
pub fn triangle_fragments(a: ScreenPoint, b: ScreenPoint, c: ScreenPoint) -> (frags: Vec<Fragment>)
    ensures
        fragments_of(frags@, a, b, c),
        frags@.len() == triangle_pixels(a, b, c).len(),
        forall|i: int|
            0 <= i < frags@.len() ==> {
                let f = #[trigger] frags@[i];
                &&& (f.x as int, f.y as int) == triangle_pixels(a, b, c)[i]
                &&& f.w_a == edge(b, c, f.x as int, f.y as int)
                &&& f.w_b == edge(c, a, f.x as int, f.y as int)
                &&& f.w_c == edge(a, b, f.x as int, f.y as int)
            },
{
    let (ax, ay) = (a.x as i128, a.y as i128);
    let (bx, by) = (b.x as i128, b.y as i128);
    let (cx, cy) = (c.x as i128, c.y as i128);
    let d = edge_at(bx, by, cx, cy, ax, ay);
    let out_bc = edge_at(bx, by, cx, cy, -1, -1);
    let out_ca = edge_at(cx, cy, ax, ay, -1, -1);
    let out_ab = edge_at(ax, ay, bx, by, -1, -1);
    let x0 = min3_of(a.x, b.x, c.x);
    let x1 = max3_of(a.x, b.x, c.x);
    let y0 = min3_of(a.y, b.y, c.y);
    let y1 = max3_of(a.y, b.y, c.y);
    let ghost nx: nat = (x1 - x0 + 1) as nat;
    let ghost pixels = triangle_pixels(a, b, c);
    let mut frags: Vec<Fragment> = Vec::new();
    let mut y = y0;
    while y <= y1
        invariant
            y0 <= y <= y1 + 1,
            y1 <= i32::MAX,
            x0 <= x1 <= i32::MAX,
            nx == x1 - x0 + 1,
            ax == a.x && ay == a.y && bx == b.x && by == b.y && cx == c.x && cy == c.y,
            d == doubled_area(a, b, c),
            out_bc == edge(b, c, -1, -1),
            out_ca == edge(c, a, -1, -1),
            out_ab == edge(a, b, -1, -1),
            pixels == covered_rows(a, b, c, x0 as int, nx, y0 as int, (y1 - y0 + 1) as nat),
            frags@.len() == covered_rows(a, b, c, x0 as int, nx, y0 as int, (y - y0) as nat).len(),
            forall|i: int|
                0 <= i < frags@.len() ==> {
                    let f = #[trigger] frags@[i];
                    &&& (f.x as int, f.y as int) == covered_rows(a, b, c, x0 as int, nx, y0 as int, (y - y0) as nat)[i]
                    &&& f.w_a == edge(b, c, f.x as int, f.y as int)
                    &&& f.w_b == edge(c, a, f.x as int, f.y as int)
                    &&& f.w_c == edge(a, b, f.x as int, f.y as int)
                },
        decreases y1 + 1 - y,
    {
        let ghost before = covered_rows(a, b, c, x0 as int, nx, y0 as int, (y - y0) as nat);
        let ghost start = frags@.len();
        let mut x = x0;
        while x <= x1
            invariant
                y0 <= y <= y1,
                y1 <= i32::MAX,
                x0 <= x <= x1 + 1,
                x1 <= i32::MAX,
                nx == x1 - x0 + 1,
                ax == a.x && ay == a.y && bx == b.x && by == b.y && cx == c.x && cy == c.y,
                d == doubled_area(a, b, c),
                out_bc == edge(b, c, -1, -1),
                out_ca == edge(c, a, -1, -1),
                out_ab == edge(a, b, -1, -1),
                before == covered_rows(a, b, c, x0 as int, nx, y0 as int, (y - y0) as nat),
                start == before.len(),
                frags@.len() == start + covered_row(a, b, c, x0 as int, y as int, (x - x0) as nat).len(),
                forall|i: int|
                    0 <= i < frags@.len() ==> {
                        let f = #[trigger] frags@[i];
                        &&& (f.x as int, f.y as int) == (before + covered_row(
                            a,
                            b,
                            c,
                            x0 as int,
                            y as int,
                            (x - x0) as nat,
                        ))[i]
                        &&& f.w_a == edge(b, c, f.x as int, f.y as int)
                        &&& f.w_b == edge(c, a, f.x as int, f.y as int)
                        &&& f.w_c == edge(a, b, f.x as int, f.y as int)
                    },
            decreases x1 + 1 - x,
        {
            let ghost row = covered_row(a, b, c, x0 as int, y as int, (x - x0) as nat);
            let xi = x as i128;
            let yi = y as i128;
            let w_a = edge_at(bx, by, cx, cy, xi, yi);
            let w_b = edge_at(cx, cy, ax, ay, xi, yi);
            let w_c = edge_at(ax, ay, bx, by, xi, yi);
            let inside = d != 0 && admits(w_a, d, out_bc) && admits(w_b, d, out_ca) && admits(w_c, d, out_ab);
            proof {
                assert(covered_row(a, b, c, x0 as int, y as int, (x + 1 - x0) as nat) == if covers(
                    a,
                    b,
                    c,
                    x as int,
                    y as int,
                ) {
                    row.push((x as int, y as int))
                } else {
                    row
                });
                assert(inside == covers(a, b, c, x as int, y as int));
            }
            if inside {
                frags.push(Fragment { x, y, w_a, w_b, w_c });
                proof {
                    assert((before + row).push((x as int, y as int)) == before + row.push((x as int, y as int)));
                }
            }
            x = x + 1;
        }
        proof {
            assert(covered_rows(a, b, c, x0 as int, nx, y0 as int, (y + 1 - y0) as nat) == before + covered_row(
                a,
                b,
                c,
                x0 as int,
                y as int,
                nx,
            ));
        }
        y = y + 1;
    }
    proof {
        assert(fragment_pixels(frags@) =~= triangle_pixels(a, b, c));
    }
    frags
}

/// The doubled area is the same edge value whichever corner is taken as the
/// apex.
pub proof fn lemma_doubled_area_rotations(a: ScreenPoint, b: ScreenPoint, c: ScreenPoint)
    ensures
        doubled_area(a, b, c) == edge(a, b, c.x as int, c.y as int),
        doubled_area(a, b, c) == edge(c, a, b.x as int, b.y as int),
        doubled_area(a, b, c) == doubled_area(b, c, a),
{
    let (ax, ay, bx, by, cx, cy) = (a.x as int, a.y as int, b.x as int, b.y as int, c.x as int, c.y as int);
    assert((by - cy) * ax + (cx - bx) * ay + bx * cy - cx * by == (ay - by) * cx + (bx - ax) * cy + ax * by - bx
        * ay) by (nonlinear_arith);
    assert((by - cy) * ax + (cx - bx) * ay + bx * cy - cx * by == (cy - ay) * bx + (ax - cx) * by + cx * ay - ax
        * cy) by (nonlinear_arith);
}

/// Two triangles that share the edge `a b`, traversed in opposite
/// directions, and lie on the two sides of it with the same orientation never
/// cover the same pixel: a pixel on the shared edge goes to exactly one of
/// them.
pub proof fn law_shared_edge_painted_once(a: ScreenPoint, b: ScreenPoint, c: ScreenPoint, d: ScreenPoint, x: int, y: int)
    requires
        (doubled_area(a, b, c) > 0 && doubled_area(b, a, d) > 0) || (doubled_area(a, b, c) < 0 && doubled_area(
            b,
            a,
            d,
        ) < 0),
    ensures
        !(covers(a, b, c, x, y) && covers(b, a, d, x, y)),
{
    lemma_doubled_area_rotations(a, b, c);
    lemma_doubled_area_rotations(b, a, d);
    let (ax, ay, bx, by) = (a.x as int, a.y as int, b.x as int, b.y as int);
    assert((by - ay) * x + (ax - bx) * y + bx * ay - ax * by == -((ay - by) * x + (bx - ax) * y + ax * by - bx
        * ay)) by (nonlinear_arith);
    assert(edge(b, a, x, y) == -edge(a, b, x, y));
    assert(edge(b, a, -1, -1) == -edge(a, b, -1, -1));
}

/// A pixel on the line of an edge shared as above, inside the other edges of
/// both triangles, is painted by exactly one of them, unless that line
/// passes through `(-1, -1)`: the shared edge leaves no gap.
pub proof fn law_shared_edge_painted_by_one(a: ScreenPoint, b: ScreenPoint, c: ScreenPoint, d: ScreenPoint, x: int, y: int)
    requires
        (doubled_area(a, b, c) > 0 && doubled_area(b, a, d) > 0) || (doubled_area(a, b, c) < 0 && doubled_area(
            b,
            a,
            d,
        ) < 0),
        edge(a, b, x, y) == 0,
        edge(a, b, -1, -1) != 0,
        edge_admits(edge(b, c, x, y), doubled_area(a, b, c), edge(b, c, -1, -1)),
        edge_admits(edge(c, a, x, y), doubled_area(a, b, c), edge(c, a, -1, -1)),
        edge_admits(edge(a, d, x, y), doubled_area(b, a, d), edge(a, d, -1, -1)),
        edge_admits(edge(d, b, x, y), doubled_area(b, a, d), edge(d, b, -1, -1)),
    ensures
        covers(a, b, c, x, y) != covers(b, a, d, x, y),
{
    lemma_doubled_area_rotations(a, b, c);
    lemma_doubled_area_rotations(b, a, d);
    let (ax, ay, bx, by) = (a.x as int, a.y as int, b.x as int, b.y as int);
    assert((by - ay) * x + (ax - bx) * y + bx * ay - ax * by == -((ay - by) * x + (bx - ax) * y + ax * by - bx
        * ay)) by (nonlinear_arith);
    assert(edge(b, a, x, y) == -edge(a, b, x, y));
    assert(edge(b, a, -1, -1) == -edge(a, b, -1, -1));
}

/// The same pixels in the same order make up a triangle whichever corner
/// comes first.
pub proof fn law_triangle_pixels_rotation(a: ScreenPoint, b: ScreenPoint, c: ScreenPoint)
    ensures
        triangle_pixels(a, b, c) == triangle_pixels(b, c, a),
{
    lemma_doubled_area_rotations(a, b, c);
    let x0 = saturate(min3(a.x as int, b.x as int, c.x as int));
    let x1 = saturate(max3(a.x as int, b.x as int, c.x as int));
    let y0 = saturate(min3(a.y as int, b.y as int, c.y as int));
    let y1 = saturate(max3(a.y as int, b.y as int, c.y as int));
    assert(x0 == saturate(min3(b.x as int, c.x as int, a.x as int)));
    assert(x1 == saturate(max3(b.x as int, c.x as int, a.x as int)));
    assert(y0 == saturate(min3(b.y as int, c.y as int, a.y as int)));
    assert(y1 == saturate(max3(b.y as int, c.y as int, a.y as int)));
    lemma_rows_rotation(a, b, c, x0, (x1 - x0 + 1) as nat, y0, (y1 - y0 + 1) as nat);
}

proof fn lemma_row_rotation(a: ScreenPoint, b: ScreenPoint, c: ScreenPoint, x0: int, y: int, n: nat)
    requires
        doubled_area(a, b, c) == doubled_area(b, c, a),
    ensures
        covered_row(a, b, c, x0, y, n) == covered_row(b, c, a, x0, y, n),
    decreases n,
{
    if n > 0 {
        lemma_row_rotation(a, b, c, x0, y, (n - 1) as nat);
    }
}

proof fn lemma_rows_rotation(a: ScreenPoint, b: ScreenPoint, c: ScreenPoint, x0: int, nx: nat, y0: int, m: nat)
    requires
        doubled_area(a, b, c) == doubled_area(b, c, a),
    ensures
        covered_rows(a, b, c, x0, nx, y0, m) == covered_rows(b, c, a, x0, nx, y0, m),
    decreases m,
{
    if m > 0 {
        lemma_rows_rotation(a, b, c, x0, nx, y0, (m - 1) as nat);
        lemma_row_rotation(a, b, c, x0, y0 + m - 1, nx);
    }
}


proof fn lemma_row_members(a: ScreenPoint, b: ScreenPoint, c: ScreenPoint, x0: int, y: int, n: nat)
    ensures
        forall|p: (int, int)|
            covered_row(a, b, c, x0, y, n).contains(p) <==> (x0 <= p.0 < x0 + n && p.1 == y && covers(
                a,
                b,
                c,
                p.0,
                p.1,
            )),
    decreases n,
{
    if n > 0 {
        lemma_row_members(a, b, c, x0, y, (n - 1) as nat);
        let prev = covered_row(a, b, c, x0, y, (n - 1) as nat);
        let x = x0 + n - 1;
        if !covers(a, b, c, x, y) {
            assert forall|p: (int, int)|
                covered_row(a, b, c, x0, y, n).contains(p) <==> (x0 <= p.0 < x0 + n && p.1 == y && covers(
                    a,
                    b,
                    c,
                    p.0,
                    p.1,
                )) by {
                if p.0 == x && p.1 == y {
                    assert(p == (x, y));
                }
            }
        } else {
            assert forall|p: (int, int)| prev.push((x, y)).contains(p) <==> (prev.contains(p) || p == (x, y)) by {
                if prev.push((x, y)).contains(p) {
                    let i = choose|i: int| 0 <= i < prev.push((x, y)).len() && prev.push((x, y))[i] == p;
                    if i < prev.len() {
                        assert(prev[i] == p);
                    }
                }
                if prev.contains(p) {
                    let i = choose|i: int| 0 <= i < prev.len() && prev[i] == p;
                    assert(prev.push((x, y))[i] == p);
                }
                if p == (x, y) {
                    assert(prev.push((x, y))[prev.len() as int] == p);
                }
            }
            assert(covered_row(a, b, c, x0, y, n) == prev.push((x, y)));
            assert forall|p: (int, int)|
                covered_row(a, b, c, x0, y, n).contains(p) <==> (x0 <= p.0 < x0 + n && p.1 == y && covers(
                    a,
                    b,
                    c,
                    p.0,
                    p.1,
                )) by {
                assert(prev.push((x, y)).contains(p) <==> (prev.contains(p) || p == (x, y)));
                if p.0 == x && p.1 == y {
                    assert(p == (x, y));
                }
            }
        }
    }
}

proof fn lemma_rows_members(a: ScreenPoint, b: ScreenPoint, c: ScreenPoint, x0: int, nx: nat, y0: int, m: nat)
    ensures
        forall|p: (int, int)|
            covered_rows(a, b, c, x0, nx, y0, m).contains(p) <==> (x0 <= p.0 < x0 + nx && y0 <= p.1 < y0 + m
                && covers(a, b, c, p.0, p.1)),
    decreases m,
{
    if m > 0 {
        lemma_rows_members(a, b, c, x0, nx, y0, (m - 1) as nat);
        lemma_row_members(a, b, c, x0, y0 + m - 1, nx);
        let s1 = covered_rows(a, b, c, x0, nx, y0, (m - 1) as nat);
        let s2 = covered_row(a, b, c, x0, y0 + m - 1, nx);
        assert forall|p: (int, int)| (s1 + s2).contains(p) <==> (s1.contains(p) || s2.contains(p)) by {
            if (s1 + s2).contains(p) {
                let i = choose|i: int| 0 <= i < (s1 + s2).len() && (s1 + s2)[i] == p;
                if i < s1.len() {
                    assert(s1[i] == p);
                } else {
                    assert(s2[i - s1.len()] == p);
                }
            }
            if s1.contains(p) {
                let i = choose|i: int| 0 <= i < s1.len() && s1[i] == p;
                assert((s1 + s2)[i] == p);
            }
            if s2.contains(p) {
                let i = choose|i: int| 0 <= i < s2.len() && s2[i] == p;
                assert((s1 + s2)[s1.len() + i] == p);
            }
        }
        assert(covered_rows(a, b, c, x0, nx, y0, m) == s1 + s2);
        assert forall|p: (int, int)|
            covered_rows(a, b, c, x0, nx, y0, m).contains(p) <==> (x0 <= p.0 < x0 + nx && y0 <= p.1 < y0 + m
                && covers(a, b, c, p.0, p.1)) by {
            assert((s1 + s2).contains(p) <==> (s1.contains(p) || s2.contains(p)));
        }
    }
}

/// A pixel the triangle covers lies within the triangle's bounding box.
proof fn lemma_covered_in_box(a: ScreenPoint, b: ScreenPoint, c: ScreenPoint, x: int, y: int)
    requires
        covers(a, b, c, x, y),
    ensures
        min3(a.x as int, b.x as int, c.x as int) <= x <= max3(a.x as int, b.x as int, c.x as int),
        min3(a.y as int, b.y as int, c.y as int) <= y <= max3(a.y as int, b.y as int, c.y as int),
{
    let d = doubled_area(a, b, c);
    let ea = edge(b, c, x, y);
    let eb = edge(c, a, x, y);
    let ec = edge(a, b, x, y);
    let (ax, ay, bx, by, cx, cy) = (a.x as int, a.y as int, b.x as int, b.y as int, c.x as int, c.y as int);
    lemma_barycentric_identity(ax, ay, bx, by, cx, cy, x, y);
    let lo_x = min3(ax, bx, cx);
    let hi_x = max3(ax, bx, cx);
    let lo_y = min3(ay, by, cy);
    let hi_y = max3(ay, by, cy);
    if d > 0 {
        assert(ea >= 0 && eb >= 0 && ec >= 0);
        assert(d * lo_x <= d * x <= d * hi_x && d * lo_y <= d * y <= d * hi_y) by (nonlinear_arith)
            requires
                ea >= 0,
                eb >= 0,
                ec >= 0,
                ea + eb + ec == d,
                ea * ax + eb * bx + ec * cx == d * x,
                ea * ay + eb * by + ec * cy == d * y,
                lo_x <= ax <= hi_x,
                lo_x <= bx <= hi_x,
                lo_x <= cx <= hi_x,
                lo_y <= ay <= hi_y,
                lo_y <= by <= hi_y,
                lo_y <= cy <= hi_y,
        ;
        assert(lo_x <= x <= hi_x && lo_y <= y <= hi_y) by (nonlinear_arith)
            requires
                d > 0,
                d * lo_x <= d * x <= d * hi_x,
                d * lo_y <= d * y <= d * hi_y,
        ;
    } else {
        assert(ea <= 0 && eb <= 0 && ec <= 0);
        assert(d * lo_x >= d * x >= d * hi_x && d * lo_y >= d * y >= d * hi_y) by (nonlinear_arith)
            requires
                ea <= 0,
                eb <= 0,
                ec <= 0,
                ea + eb + ec == d,
                ea * ax + eb * bx + ec * cx == d * x,
                ea * ay + eb * by + ec * cy == d * y,
                lo_x <= ax <= hi_x,
                lo_x <= bx <= hi_x,
                lo_x <= cx <= hi_x,
                lo_y <= ay <= hi_y,
                lo_y <= by <= hi_y,
                lo_y <= cy <= hi_y,
        ;
        assert(lo_x <= x <= hi_x && lo_y <= y <= hi_y) by (nonlinear_arith)
            requires
                d < 0,
                d * lo_x >= d * x >= d * hi_x,
                d * lo_y >= d * y >= d * hi_y,
        ;
    }
}

/// The pixels a triangle is rasterized to are exactly the pixels with
/// non-negative coordinates that it covers.
pub proof fn lemma_triangle_pixels_members(a: ScreenPoint, b: ScreenPoint, c: ScreenPoint, x: int, y: int)
    ensures
        triangle_pixels(a, b, c).contains((x, y)) <==> (x >= 0 && y >= 0 && covers(a, b, c, x, y)),
{
    let x0 = saturate(min3(a.x as int, b.x as int, c.x as int));
    let x1 = saturate(max3(a.x as int, b.x as int, c.x as int));
    let y0 = saturate(min3(a.y as int, b.y as int, c.y as int));
    let y1 = saturate(max3(a.y as int, b.y as int, c.y as int));
    lemma_rows_members(a, b, c, x0, (x1 - x0 + 1) as nat, y0, (y1 - y0 + 1) as nat);
    assert(x0 <= x1 && y0 <= y1);
    if covers(a, b, c, x, y) {
        lemma_covered_in_box(a, b, c, x, y);
    }
}

/// The pixels of the fragments rasterized from a triangle.
pub open spec fn fragment_pixels(frags: Seq<Fragment>) -> Seq<(int, int)> {
    frags.map_values(|f: Fragment| (f.x as int, f.y as int))
}

/// Fragments that `triangle_fragments` gives for the triangle `a b c`.
pub open spec fn fragments_of(frags: Seq<Fragment>, a: ScreenPoint, b: ScreenPoint, c: ScreenPoint) -> bool {
    fragment_pixels(frags) == triangle_pixels(a, b, c)
}

/// Rasterizing two triangles that share the edge `a b`, traversed in
/// opposite directions, and lie on the two sides of it with the same
/// orientation writes no pixel twice; a pixel on the line of the shared
/// edge, inside the other edges of both triangles, is written by exactly
/// one of them, unless that line passes through `(-1, -1)`.
pub proof fn law_shared_edge_fragments(
    a: ScreenPoint,
    b: ScreenPoint,
    c: ScreenPoint,
    d: ScreenPoint,
    f1: Seq<Fragment>,
    f2: Seq<Fragment>,
    x: int,
    y: int,
)
    requires
        (doubled_area(a, b, c) > 0 && doubled_area(b, a, d) > 0) || (doubled_area(a, b, c) < 0 && doubled_area(
            b,
            a,
            d,
        ) < 0),
        fragments_of(f1, a, b, c),
        fragments_of(f2, b, a, d),
    ensures
        !(fragment_pixels(f1).contains((x, y)) && fragment_pixels(f2).contains((x, y))),
        ({
            &&& x >= 0
            &&& y >= 0
            &&& edge(a, b, x, y) == 0
            &&& edge(a, b, -1, -1) != 0
            &&& edge_admits(edge(b, c, x, y), doubled_area(a, b, c), edge(b, c, -1, -1))
            &&& edge_admits(edge(c, a, x, y), doubled_area(a, b, c), edge(c, a, -1, -1))
            &&& edge_admits(edge(a, d, x, y), doubled_area(b, a, d), edge(a, d, -1, -1))
            &&& edge_admits(edge(d, b, x, y), doubled_area(b, a, d), edge(d, b, -1, -1))
        }) ==> fragment_pixels(f1).contains((x, y)) != fragment_pixels(f2).contains((x, y)),
{
    lemma_triangle_pixels_members(a, b, c, x, y);
    lemma_triangle_pixels_members(b, a, d, x, y);
    law_shared_edge_painted_once(a, b, c, d, x, y);
    if x >= 0 && y >= 0 && edge(a, b, x, y) == 0 && edge(a, b, -1, -1) != 0 && edge_admits(
        edge(b, c, x, y),
        doubled_area(a, b, c),
        edge(b, c, -1, -1),
    ) && edge_admits(edge(c, a, x, y), doubled_area(a, b, c), edge(c, a, -1, -1)) && edge_admits(
        edge(a, d, x, y),
        doubled_area(b, a, d),
        edge(a, d, -1, -1),
    ) && edge_admits(edge(d, b, x, y), doubled_area(b, a, d), edge(d, b, -1, -1)) {
        law_shared_edge_painted_by_one(a, b, c, d, x, y);
    }
}


/// The edge values of a point are its barycentric weights scaled by the
/// doubled area: they sum to it, and weigh the corners to the point.
proof fn lemma_barycentric_identity(ax: int, ay: int, bx: int, by: int, cx: int, cy: int, x: int, y: int)
    ensures
        ({
            let ea = (by - cy) * x + (cx - bx) * y + bx * cy - cx * by;
            let eb = (cy - ay) * x + (ax - cx) * y + cx * ay - ax * cy;
            let ec = (ay - by) * x + (bx - ax) * y + ax * by - bx * ay;
            let d = (by - cy) * ax + (cx - bx) * ay + bx * cy - cx * by;
            &&& ea + eb + ec == d
            &&& ea * ax + eb * bx + ec * cx == d * x
            &&& ea * ay + eb * by + ec * cy == d * y
        }),
{
    // Translated so that `a` sits at the origin, the edge values only
    // depend on the differences.
    let (ux, uy, vx, vy, px, py) = (bx - ax, by - ay, cx - ax, cy - ay, x - ax, y - ay);
    let ea = (by - cy) * x + (cx - bx) * y + bx * cy - cx * by;
    let eb = (cy - ay) * x + (ax - cx) * y + cx * ay - ax * cy;
    let ec = (ay - by) * x + (bx - ax) * y + ax * by - bx * ay;
    let d = (by - cy) * ax + (cx - bx) * ay + bx * cy - cx * by;
    assert(ea == (uy - vy) * px + (vx - ux) * py + ux * vy - vx * uy) by {
        lemma_edge_translated(ax, ay, ux, uy, vx, vy, px, py);
    }
    assert(eb == vy * px - vx * py) by (nonlinear_arith)
        requires
            eb == (cy - ay) * x + (ax - cx) * y + cx * ay - ax * cy,
            cx == ax + vx,
            cy == ay + vy,
            x == ax + px,
            y == ay + py,
    ;
    assert(ec == ux * py - uy * px) by (nonlinear_arith)
        requires
            ec == (ay - by) * x + (bx - ax) * y + ax * by - bx * ay,
            bx == ax + ux,
            by == ay + uy,
            x == ax + px,
            y == ay + py,
    ;
    assert(d == ux * vy - vx * uy) by (nonlinear_arith)
        requires
            d == (by - cy) * ax + (cx - bx) * ay + bx * cy - cx * by,
            bx == ax + ux,
            by == ay + uy,
            cx == ax + vx,
            cy == ay + vy,
    ;
    assert(ea + eb + ec == d) by (nonlinear_arith)
        requires
            ea == (uy - vy) * px + (vx - ux) * py + ux * vy - vx * uy,
            eb == vy * px - vx * py,
            ec == ux * py - uy * px,
            d == ux * vy - vx * uy,
    ;
    assert(eb * ux + ec * vx == d * px) by (nonlinear_arith)
        requires
            eb == vy * px - vx * py,
            ec == ux * py - uy * px,
            d == ux * vy - vx * uy,
    ;
    assert(eb * uy + ec * vy == d * py) by (nonlinear_arith)
        requires
            eb == vy * px - vx * py,
            ec == ux * py - uy * px,
            d == ux * vy - vx * uy,
    ;
    assert(ea * ax + eb * bx + ec * cx == d * x) by (nonlinear_arith)
        requires
            ea + eb + ec == d,
            eb * ux + ec * vx == d * px,
            bx == ax + ux,
            cx == ax + vx,
            x == ax + px,
    ;
    assert(ea * ay + eb * by + ec * cy == d * y) by (nonlinear_arith)
        requires
            ea + eb + ec == d,
            eb * uy + ec * vy == d * py,
            by == ay + uy,
            cy == ay + vy,
            y == ay + py,
    ;
}


proof fn lemma_edge_translated(ax: int, ay: int, ux: int, uy: int, vx: int, vy: int, px: int, py: int)
    ensures
        ((ay + uy) - (ay + vy)) * (ax + px) + ((ax + vx) - (ax + ux)) * (ay + py) + (ax + ux) * (ay + vy) - (ax
            + vx) * (ay + uy) == (uy - vy) * px + (vx - ux) * py + ux * vy - vx * uy,
{
    let a1 = uy - vy;
    let a2 = vx - ux;
    assert((ay + uy) - (ay + vy) == a1);
    assert((ax + vx) - (ax + ux) == a2);
    assert(a1 * (ax + px) == a1 * ax + a1 * px) by (nonlinear_arith);
    assert(a2 * (ay + py) == a2 * ay + a2 * py) by (nonlinear_arith);
    assert((ax + ux) * (ay + vy) == ax * ay + ax * vy + ux * ay + ux * vy) by (nonlinear_arith);
    assert((ax + vx) * (ay + uy) == ax * ay + ax * uy + vx * ay + vx * uy) by (nonlinear_arith);
    assert(a1 * ax == uy * ax - vy * ax) by (nonlinear_arith)
        requires
            a1 == uy - vy,
    ;
    assert(a2 * ay == vx * ay - ux * ay) by (nonlinear_arith)
        requires
            a2 == vx - ux,
    ;
    assert(ax * vy == vy * ax && ax * uy == uy * ax) by (nonlinear_arith);
}


/// A point strictly inside the edge `p q` of a triangle, which is a proper
/// triangle, lies strictly inside the triangle's two other edges: its edge
/// values there have the sign of the doubled area.
proof fn lemma_inside_edge_weights(p: ScreenPoint, q: ScreenPoint, r: ScreenPoint, x: int, y: int)
    requires
        edge(p, q, x, y) == 0,
        (x - p.x) * (q.x - p.x) + (y - p.y) * (q.y - p.y) > 0,
        (x - q.x) * (p.x - q.x) + (y - q.y) * (p.y - q.y) > 0,
    ensures
        edge(q, r, x, y) * doubled_area(p, q, r) > 0 || doubled_area(p, q, r) == 0,
        edge(r, p, x, y) * doubled_area(p, q, r) > 0 || doubled_area(p, q, r) == 0,
{
    let (px, py, qx, qy, rx, ry) = (p.x as int, p.y as int, q.x as int, q.y as int, r.x as int, r.y as int);
    lemma_barycentric_identity(px, py, qx, qy, rx, ry, x, y);
    let d = doubled_area(p, q, r);
    let wp = edge(q, r, x, y);
    let wq = edge(r, p, x, y);
    let wr = edge(p, q, x, y);
    assert(wp + wq + wr == d);
    assert(wp * px + wq * qx + wr * rx == d * x);
    assert(wp * py + wq * qy + wr * ry == d * y);
    assert(wr * rx == 0 && wr * ry == 0) by (nonlinear_arith)
        requires
            wr == 0,
    ;
    assert(d * (x - px) == wq * (qx - px)) by (nonlinear_arith)
        requires
            wp + wq == d,
            wp * px + wq * qx == d * x,
    ;
    assert(d * (y - py) == wq * (qy - py)) by (nonlinear_arith)
        requires
            wp + wq == d,
            wp * py + wq * qy == d * y,
    ;
    assert(d * (x - qx) == wp * (px - qx)) by (nonlinear_arith)
        requires
            wp + wq == d,
            wp * px + wq * qx == d * x,
    ;
    assert(d * (y - qy) == wp * (py - qy)) by (nonlinear_arith)
        requires
            wp + wq == d,
            wp * py + wq * qy == d * y,
    ;
    let dot_p = (x - px) * (qx - px) + (y - py) * (qy - py);
    let dot_q = (x - qx) * (px - qx) + (y - qy) * (py - qy);
    let n = (qx - px) * (qx - px) + (qy - py) * (qy - py);
    assert(d * dot_p == wq * n) by (nonlinear_arith)
        requires
            d * (x - px) == wq * (qx - px),
            d * (y - py) == wq * (qy - py),
            dot_p == (x - px) * (qx - px) + (y - py) * (qy - py),
            n == (qx - px) * (qx - px) + (qy - py) * (qy - py),
    ;
    let n2 = (px - qx) * (px - qx) + (py - qy) * (py - qy);
    assert(n2 == n) by (nonlinear_arith)
        requires
            n2 == (px - qx) * (px - qx) + (py - qy) * (py - qy),
            n == (qx - px) * (qx - px) + (qy - py) * (qy - py),
    ;
    assert(d * dot_q == wp * n2) by (nonlinear_arith)
        requires
            d * (x - qx) == wp * (px - qx),
            d * (y - qy) == wp * (py - qy),
            dot_q == (x - qx) * (px - qx) + (y - qy) * (py - qy),
            n2 == (px - qx) * (px - qx) + (py - qy) * (py - qy),
    ;
    assert(n > 0) by (nonlinear_arith)
        requires
            dot_p == (x - px) * (qx - px) + (y - py) * (qy - py),
            dot_p > 0,
            n == (qx - px) * (qx - px) + (qy - py) * (qy - py),
    ;
    if d != 0 {
        assert(wq * d > 0) by (nonlinear_arith)
            requires
                d * dot_p == wq * n,
                dot_p > 0,
                n > 0,
                d != 0,
        ;
        assert(wp * d > 0) by (nonlinear_arith)
            requires
                d * dot_q == wp * n,
                dot_q > 0,
                n > 0,
                d != 0,
        ;
    }
}

/// Two triangles that share the edge `a b`, traversed in opposite
/// directions, and lie on the two sides of it with the same orientation
/// cover every pixel strictly inside the shared segment exactly once, unless
/// the segment's line passes through `(-1, -1)`.
pub proof fn law_shared_segment_painted_by_one(a: ScreenPoint, b: ScreenPoint, c: ScreenPoint, d: ScreenPoint, x: int, y: int)
    requires
        (doubled_area(a, b, c) > 0 && doubled_area(b, a, d) > 0) || (doubled_area(a, b, c) < 0 && doubled_area(
            b,
            a,
            d,
        ) < 0),
        edge(a, b, x, y) == 0,
        edge(a, b, -1, -1) != 0,
        (x - a.x) * (b.x - a.x) + (y - a.y) * (b.y - a.y) > 0,
        (x - b.x) * (a.x - b.x) + (y - b.y) * (a.y - b.y) > 0,
    ensures
        covers(a, b, c, x, y) != covers(b, a, d, x, y),
{
    let (ax, ay, bx, by) = (a.x as int, a.y as int, b.x as int, b.y as int);
    assert((by - ay) * x + (ax - bx) * y + bx * ay - ax * by == -((ay - by) * x + (bx - ax) * y + ax * by - bx
        * ay)) by (nonlinear_arith);
    assert(edge(b, a, x, y) == -edge(a, b, x, y));
    lemma_inside_edge_weights(a, b, c, x, y);
    lemma_inside_edge_weights(b, a, d, x, y);
    let d1 = doubled_area(a, b, c);
    let d2 = doubled_area(b, a, d);
    let e_bc = edge(b, c, x, y);
    let e_ca = edge(c, a, x, y);
    let e_ad = edge(a, d, x, y);
    let e_db = edge(d, b, x, y);
    assert(e_bc * d1 > 0 && e_ca * d1 > 0 && e_ad * d2 > 0 && e_db * d2 > 0);
    assert((e_bc > 0) == (d1 > 0) && (e_ca > 0) == (d1 > 0) && (e_bc < 0) == (d1 < 0) && (e_ca < 0) == (d1 < 0))
        by (nonlinear_arith)
        requires
            e_bc * d1 > 0,
            e_ca * d1 > 0,
    ;
    assert((e_ad > 0) == (d2 > 0) && (e_db > 0) == (d2 > 0) && (e_ad < 0) == (d2 < 0) && (e_db < 0) == (d2 < 0))
        by (nonlinear_arith)
        requires
            e_ad * d2 > 0,
            e_db * d2 > 0,
    ;
    law_shared_edge_painted_by_one(a, b, c, d, x, y);
}


/// Rasterizing two triangles that share the edge `a b` as above writes every
/// pixel strictly inside the shared segment exactly once, unless the
/// segment's line passes through `(-1, -1)`.
pub proof fn law_shared_segment_fragments(
    a: ScreenPoint,
    b: ScreenPoint,
    c: ScreenPoint,
    d: ScreenPoint,
    f1: Seq<Fragment>,
    f2: Seq<Fragment>,
    x: int,
    y: int,
)
    requires
        (doubled_area(a, b, c) > 0 && doubled_area(b, a, d) > 0) || (doubled_area(a, b, c) < 0 && doubled_area(
            b,
            a,
            d,
        ) < 0),
        fragments_of(f1, a, b, c),
        fragments_of(f2, b, a, d),
        x >= 0,
        y >= 0,
        edge(a, b, x, y) == 0,
        edge(a, b, -1, -1) != 0,
        (x - a.x) * (b.x - a.x) + (y - a.y) * (b.y - a.y) > 0,
        (x - b.x) * (a.x - b.x) + (y - b.y) * (a.y - b.y) > 0,
    ensures
        fragment_pixels(f1).contains((x, y)) != fragment_pixels(f2).contains((x, y)),
{
    lemma_triangle_pixels_members(a, b, c, x, y);
    lemma_triangle_pixels_members(b, a, d, x, y);
    law_shared_segment_painted_by_one(a, b, c, d, x, y);
}

} // verus!
