use draw::canvas::{Canvas, PixelPos};
use draw::pixel::Pixel;
use std::collections::HashSet;

/// The renderer's midpoint rasterisation, on floating-point pixel centres.
fn reference_line(a: (usize, usize), b: (usize, usize)) -> HashSet<(usize, usize)> {
    let mut out = HashSet::new();
    let (ax, ay) = (a.0 as f32, a.1 as f32);
    let (bx, by) = (b.0 as f32, b.1 as f32);
    let m = (by - ay) / (bx - ax);
    let idx = if 1.0 < m {
        0
    } else if 0.0 < m && m <= 1.0 {
        1
    } else if -1.0 < m && m <= 0.0 {
        2
    } else if m <= -1.0 {
        3
    } else {
        return out;
    };
    let (p, q) = if ax <= bx { ((ax, ay), (bx, by)) } else { ((bx, by), (ax, ay)) };
    let midpoint_x = [0.5f32, 1.0, 1.0, 0.5];
    let midpoint_y = [1.0f32, 0.5, -0.5, -1.0];
    let first = [p.1 as usize, p.0 as usize, p.0 as usize, p.1 as usize];
    let last = [q.1 as usize, q.0 as usize, q.0 as usize, q.1 as usize];
    let f = |x: f32, y: f32| (p.1 - q.1) * x + (q.0 - p.0) * y + (p.0 * q.1) - (q.0 * p.1);
    let inc_begin = [p.0 as i32, p.1 as i32, p.1 as i32, p.0 as i32];
    let increment = [1, 1, -1, 1];
    let mut inc_axis = inc_begin[idx];
    let mut d = f(p.0 + midpoint_x[idx], p.1 + midpoint_y[idx]);
    let delta_y = p.1 - q.1;
    let delta_x = if idx == 0 || idx == 1 { q.0 - p.0 } else { -(q.0 - p.0) };
    let steps: Vec<usize> = if idx == 3 {
        (last[idx]..=first[idx]).rev().collect()
    } else {
        (first[idx]..=last[idx]).collect()
    };
    for iter_axis in steps {
        let (x, y) = match idx {
            0 | 3 => (inc_axis, iter_axis as i32),
            _ => (iter_axis as i32, inc_axis),
        };
        out.insert((x as usize, y as usize));
        let d_cond = match idx {
            0 | 2 => d > 0.0,
            _ => d < 0.0,
        };
        if d_cond {
            inc_axis += increment[idx];
            d += delta_x + delta_y;
        } else {
            d += if idx == 0 || idx == 3 { delta_x } else { delta_y };
        }
    }
    out
}

fn painted(w: usize, h: usize, a: (usize, usize), b: (usize, usize)) -> HashSet<(usize, usize)> {
    let mut c = Canvas::new(w, h);
    c.draw_line(PixelPos { x: a.0, y: a.1 }, PixelPos { x: b.0, y: b.1 });
    let mut out = HashSet::new();
    for x in 0..w {
        for y in 0..h {
            let p = c.get_pixel_coord(x, y);
            if p == Pixel::white() {
                out.insert((x, y));
            } else {
                assert_eq!(p, Pixel::black());
            }
        }
    }
    out
}

#[test]
fn line_matches_midpoint_rasterisation_on_small_grid() {
    let n = 8;
    for ax in 0..n {
        for ay in 0..n {
            for bx in 0..n {
                for by in 0..n {
                    let got = painted(n, n, (ax, ay), (bx, by));
                    let want = reference_line((ax, ay), (bx, by));
                    assert_eq!(got, want, "line ({ax},{ay}) -> ({bx},{by})");
                }
            }
        }
    }
}

#[test]
fn line_is_symmetric() {
    for (a, b) in [((0, 0), (9, 4)), ((2, 9), (7, 0)), ((3, 1), (3, 8)), ((0, 5), (9, 5)), ((1, 1), (6, 6))] {
        assert_eq!(painted(10, 10, a, b), painted(10, 10, b, a));
    }
}

#[test]
fn line_paints_its_end_points() {
    for (a, b) in [((0, 0), (9, 4)), ((2, 9), (7, 0)), ((3, 1), (3, 8)), ((9, 9), (0, 0))] {
        let got = painted(10, 10, a, b);
        assert!(got.contains(&a));
        assert!(got.contains(&b));
    }
}

#[test]
fn horizontal_vertical_and_diagonal_lines() {
    let h: HashSet<_> = (2..=7).map(|x| (x, 3)).collect();
    assert_eq!(painted(10, 10, (2, 3), (7, 3)), h);
    let v: HashSet<_> = (1..=6).map(|y| (4, y)).collect();
    assert_eq!(painted(10, 10, (4, 6), (4, 1)), v);
    let d: HashSet<_> = (0..=5).map(|i| (i, i)).collect();
    assert_eq!(painted(10, 10, (0, 0), (5, 5)), d);
    let shallow: HashSet<_> = [(0, 0), (1, 0), (2, 1), (3, 1), (4, 2)].into_iter().collect();
    assert_eq!(painted(10, 10, (0, 0), (4, 2)), shallow);
}

#[test]
fn single_point_line_paints_nothing() {
    assert!(painted(5, 5, (2, 2), (2, 2)).is_empty());
}

#[test]
fn line_keeps_other_pixels() {
    let mut c = Canvas::new(6, 6);
    c.draw_pixel_coord(5, 0, Pixel::red());
    c.draw_line(PixelPos { x: 0, y: 0 }, PixelPos { x: 0, y: 5 });
    assert_eq!(c.get_pixel_coord(5, 0), Pixel::red());
    assert_eq!(c.get_pixel_coord(0, 3), Pixel::white());
}

#[test]
fn drawing_a_segment_either_way_gives_the_same_frame() {
    let ends = [((0, 0), (7, 3)), ((1, 6), (6, 2)), ((2, 0), (3, 7)), ((7, 7), (0, 1)), ((4, 4), (4, 0))];
    for (a, b) in ends {
        let mut c1 = Canvas::new(8, 8);
        let mut c2 = Canvas::new(8, 8);
        c1.draw_line(PixelPos { x: a.0, y: a.1 }, PixelPos { x: b.0, y: b.1 });
        c2.draw_line(PixelPos { x: b.0, y: b.1 }, PixelPos { x: a.0, y: a.1 });
        assert_eq!(c1.as_bytes_slice(), c2.as_bytes_slice());
    }
}
