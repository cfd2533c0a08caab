use draw::raster::{triangle_doubled_area, triangle_fragments, Fragment, ScreenPoint};
use std::collections::HashSet;

fn p(x: i32, y: i32) -> ScreenPoint {
    ScreenPoint { x, y }
}

/// The renderer's coverage test on floating-point pixel centres, in scan
/// order, with the edge values of each covered pixel.
fn reference(a: (f32, f32), b: (f32, f32), c: (f32, f32)) -> Vec<(usize, usize, f32, f32, f32)> {
    let f_ab = |x: f32, y: f32| (a.1 - b.1) * x + (b.0 - a.0) * y + (a.0 * b.1) - (b.0 * a.1);
    let f_bc = |x: f32, y: f32| (b.1 - c.1) * x + (c.0 - b.0) * y + (b.0 * c.1) - (c.0 * b.1);
    let f_ca = |x: f32, y: f32| (c.1 - a.1) * x + (a.0 - c.0) * y + (c.0 * a.1) - (a.0 * c.1);
    let x_min = a.0.min(b.0).min(c.0) as usize;
    let y_min = a.1.min(b.1).min(c.1) as usize;
    let x_max = a.0.max(b.0).max(c.0) as usize;
    let y_max = a.1.max(b.1).max(c.1) as usize;
    let f_alpha = f_bc(a.0, a.1);
    let f_beta = f_ca(b.0, b.1);
    let f_gama = f_ab(c.0, c.1);
    let f_alpha_outside = f_bc(-1.0, -1.0);
    let f_beta_outside = f_ca(-1.0, -1.0);
    let f_gama_outside = f_ab(-1.0, -1.0);
    let mut out = vec![];
    for y in y_min..=y_max {
        for x in x_min..=x_max {
            let (xf, yf) = (x as f32, y as f32);
            let alpha = f_bc(xf, yf) / f_alpha;
            let beta = f_ca(xf, yf) / f_beta;
            let gama = f_ab(xf, yf) / f_gama;
            if alpha >= 0.0 && beta >= 0.0 && gama >= 0.0 {
                if (alpha > 0.0 || f_alpha * f_alpha_outside > 0.0)
                    && (beta > 0.0 || f_beta * f_beta_outside > 0.0)
                    && (gama > 0.0 || f_gama * f_gama_outside > 0.0)
                {
                    out.push((x, y, f_bc(xf, yf), f_ca(xf, yf), f_ab(xf, yf)));
                }
            }
        }
    }
    out
}

#[test]
fn fragments_match_the_renderer_on_a_small_grid() {
    let pts: Vec<(i32, i32)> = (-2..4).flat_map(|x| (-1..4).map(move |y| (x, y))).collect();
    for &a in &pts {
        for &b in &pts {
            for &c in &pts {
                let got = triangle_fragments(p(a.0, a.1), p(b.0, b.1), p(c.0, c.1));
                let want = reference(
                    (a.0 as f32, a.1 as f32),
                    (b.0 as f32, b.1 as f32),
                    (c.0 as f32, c.1 as f32),
                );
                assert_eq!(got.len(), want.len(), "{a:?} {b:?} {c:?}");
                for (f, w) in got.iter().zip(want.iter()) {
                    assert_eq!((f.x, f.y), (w.0, w.1));
                    assert_eq!(f.w_a as f32, w.2);
                    assert_eq!(f.w_b as f32, w.3);
                    assert_eq!(f.w_c as f32, w.4);
                }
            }
        }
    }
}

#[test]
fn doubled_area_has_orientation() {
    assert_eq!(triangle_doubled_area(p(0, 0), p(4, 0), p(0, 3)), 12);
    assert_eq!(triangle_doubled_area(p(0, 0), p(0, 3), p(4, 0)), -12);
    assert_eq!(triangle_doubled_area(p(0, 0), p(1, 1), p(2, 2)), 0);
}

#[test]
fn right_triangle_fragments() {
    let f = triangle_fragments(p(0, 0), p(2, 0), p(0, 2));
    let pos: Vec<(usize, usize)> = f.iter().map(|f| (f.x, f.y)).collect();
    // (-1, -1) lies on the outer side of both legs, whose pixels are
    // dropped, and on the inner side of the hypotenuse x + y = 2, whose
    // pixels are kept.
    assert_eq!(pos, vec![(1, 1)]);
    assert_eq!(f[0], Fragment { x: 1, y: 1, w_a: 0, w_b: 2, w_c: 2 });
    let g = triangle_fragments(p(1, 1), p(5, 1), p(1, 5));
    let pos: Vec<(usize, usize)> = g.iter().map(|f| (f.x, f.y)).collect();
    assert_eq!(pos, vec![(2, 2), (3, 2), (4, 2), (2, 3), (3, 3), (2, 4)]);
}

#[test]
fn degenerate_triangle_covers_nothing() {
    assert!(triangle_fragments(p(1, 1), p(3, 3), p(5, 5)).is_empty());
    assert!(triangle_fragments(p(2, 2), p(2, 2), p(2, 2)).is_empty());
}

#[test]
fn shared_edge_pixels_go_to_one_triangle() {
    // two triangles of the square (1,0)-(5,4) split along its diagonal,
    // whose line misses (-1, -1)
    let a = p(1, 0);
    let b = p(5, 4);
    let t1 = triangle_fragments(a, b, p(5, 0));
    let t2 = triangle_fragments(b, a, p(1, 4));
    for f in &t1 {
        assert!(!t2.iter().any(|g| (g.x, g.y) == (f.x, f.y)), "({}, {}) painted twice", f.x, f.y);
    }
    for i in 1..4 {
        let in1 = t1.iter().any(|f| (f.x, f.y) == (i + 1, i));
        let in2 = t2.iter().any(|f| (f.x, f.y) == (i + 1, i));
        assert!(in1 != in2, "diagonal pixel {i}");
    }
}

#[test]
fn rotating_the_corners_keeps_the_pixels() {
    let (a, b, c) = (p(1, 0), p(7, 3), p(2, 6));
    let pos = |v: Vec<Fragment>| v.iter().map(|f| (f.x, f.y)).collect::<Vec<_>>();
    let p1 = pos(triangle_fragments(a, b, c));
    assert_eq!(p1, pos(triangle_fragments(b, c, a)));
    assert_eq!(p1, pos(triangle_fragments(c, a, b)));
    assert!(!p1.is_empty());
}

#[test]
fn triangles_sharing_an_edge_write_each_pixel_once() {
    let (a, b, c, d) = (p(0, 1), p(6, 4), p(6, 0), p(0, 5));
    let f1: HashSet<(usize, usize)> = triangle_fragments(a, b, c).iter().map(|f| (f.x, f.y)).collect();
    let f2: HashSet<(usize, usize)> = triangle_fragments(b, a, d).iter().map(|f| (f.x, f.y)).collect();
    assert!(f1.is_disjoint(&f2));
    // The pixels strictly inside the shared edge go to exactly one of the two.
    for q in [(2usize, 2usize), (4, 3)] {
        assert!(f1.contains(&q) != f2.contains(&q));
    }
}

#[test]
fn pixels_strictly_inside_a_shared_segment_are_written_once() {
    // A segment with more lattice points inside it: (0,0) to (8,4).
    let (a, b, c, d) = (p(0, 0), p(8, 4), p(8, 0), p(0, 4));
    let f1: HashSet<(usize, usize)> = triangle_fragments(a, b, c).iter().map(|f| (f.x, f.y)).collect();
    let f2: HashSet<(usize, usize)> = triangle_fragments(b, a, d).iter().map(|f| (f.x, f.y)).collect();
    for q in [(2usize, 1usize), (4, 2), (6, 3)] {
        assert!(f1.contains(&q) != f2.contains(&q));
    }
}
