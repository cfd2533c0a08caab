use draw::canvas::{Canvas, PixelPos};
use draw::pixel::Pixel;

#[test]
fn new_canvas_is_black() {
    let c = Canvas::new(3, 2);
    assert_eq!(c.width(), 3);
    assert_eq!(c.height(), 2);
    for x in 0..3 {
        for y in 0..2 {
            assert_eq!(c.get_pixel_coord(x, y), Pixel::black());
        }
    }
}

#[test]
fn read_after_draw() {
    let mut c = Canvas::new(4, 3);
    c.draw_pixel_coord(1, 2, Pixel::red());
    assert_eq!(c.get_pixel_coord(1, 2), Pixel::red());
    for x in 0..4 {
        for y in 0..3 {
            if (x, y) != (1, 2) {
                assert_eq!(c.get_pixel_coord(x, y), Pixel::black());
            }
        }
    }
    c.draw_pixel(PixelPos { x: 1, y: 2 }, Pixel::green());
    assert_eq!(c.get_pixel_coord(1, 2), Pixel::green());
    c.draw_white_dot(PixelPos { x: 3, y: 0 });
    assert_eq!(c.get_pixel_coord(3, 0), Pixel::white());
    c.draw_dot(PixelPos { x: 0, y: 0 }, Pixel::blue());
    assert_eq!(c.get_pixel_coord(0, 0), Pixel::blue());
}

#[test]
fn bottom_row_is_last_in_the_buffer() {
    let mut c = Canvas::new(2, 2);
    c.draw_pixel_coord(0, 0, Pixel::red());
    c.draw_pixel_coord(1, 1, Pixel::blue());
    let bytes = c.as_bytes_slice();
    assert_eq!(bytes.len(), 16);
    // top row first: (0,1) then (1,1)
    assert_eq!(&bytes[0..4], &[0, 0, 0, 0]);
    assert_eq!(&bytes[4..8], &[255, 0, 0, 0]);
    // bottom row: (0,0) then (1,0)
    assert_eq!(&bytes[8..12], &[0, 0, 255, 0]);
    assert_eq!(&bytes[12..16], &[0, 0, 0, 0]);
}

#[test]
fn clear_paints_background() {
    let mut c = Canvas::new(2, 3);
    c.draw_pixel_coord(1, 1, Pixel::red());
    c.clear();
    for x in 0..2 {
        for y in 0..3 {
            assert_eq!(c.get_pixel_coord(x, y), Pixel::azul_bb());
        }
    }
}

#[test]
fn sizes_in_bytes() {
    let c = Canvas::new(5, 7);
    assert_eq!(Canvas::pixel_bytes(), 4);
    assert_eq!(c.size_bytes(), 140);
    assert_eq!(c.as_bytes_slice().len(), 140);
}

#[test]
fn in_bounds_checks_both_axes() {
    let c = Canvas::new(5, 7);
    assert!(c.in_bounds(4, 6));
    assert!(!c.in_bounds(5, 0));
    assert!(!c.in_bounds(0, 7));
}

#[test]
fn empty_canvas() {
    let c = Canvas::new(0, 0);
    assert_eq!(c.size_bytes(), 0);
    assert!(c.as_bytes_slice().is_empty());
}
