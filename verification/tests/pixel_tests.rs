use draw::pixel::{Color, Pixel};

fn px(r: u8, g: u8, b: u8) -> Pixel {
    Pixel { b, g, r, padd: 0 }
}

/// The blend of the renderer, computed on normalised floating-point channels.
fn float_blend_channel(a: u8, b: u8) -> u8 {
    let na = a as f32 / 255.0;
    let nb = b as f32 / 255.0;
    ((na * nb) * 255.0) as u8
}

#[test]
fn pixel_new_sets_channels_and_clears_padding() {
    let p = Pixel::new(1, 2, 3);
    assert_eq!(p, Pixel { b: 3, g: 2, r: 1, padd: 0 });
}

#[test]
fn named_pixels() {
    assert_eq!(Pixel::red(), px(255, 0, 0));
    assert_eq!(Pixel::green(), px(0, 255, 0));
    assert_eq!(Pixel::blue(), px(0, 0, 255));
    assert_eq!(Pixel::white(), px(255, 255, 255));
    assert_eq!(Pixel::black(), px(0, 0, 0));
    assert_eq!(Pixel::azul_bb(), px(155, 186, 255));
}

#[test]
fn colors_as_pixels() {
    assert_eq!(Color::White.as_pixel(), px(255, 255, 255));
    assert_eq!(Color::Black.as_pixel(), px(0, 0, 0));
    assert_eq!(Color::Red.as_pixel(), px(255, 0, 0));
    assert_eq!(Color::Green.as_pixel(), px(0, 255, 0));
    assert_eq!(Color::Blue.as_pixel(), px(0, 0, 255));
    assert_eq!(Color::Grey.as_pixel(), px(128, 128, 128));
}

#[test]
fn setters_change_one_channel() {
    let mut p = Pixel::new(10, 20, 30);
    p.set_red(100);
    assert_eq!(p, Pixel { b: 30, g: 20, r: 100, padd: 0 });
    p.set_green(101);
    assert_eq!(p, Pixel { b: 30, g: 101, r: 100, padd: 0 });
    p.set_blue(102);
    assert_eq!(p, Pixel { b: 102, g: 101, r: 100, padd: 0 });
    p.set_padd(7);
    assert_eq!(p, Pixel { b: 102, g: 101, r: 100, padd: 7 });
}

#[test]
fn blend_exact_values() {
    let p = Pixel::blend(px(255, 128, 0), px(128, 255, 200));
    assert_eq!(p, px(128, 128, 0));
    let q = Pixel::blend(px(100, 200, 50), px(100, 200, 50));
    // 100*100/255 = 39.2, 200*200/255 = 156.8, 50*50/255 = 9.8
    assert_eq!(q, px(39, 156, 9));
}

#[test]
fn blend_matches_float_computation_on_every_pair() {
    for a in 0..=255u8 {
        for b in 0..=255u8 {
            let p = Pixel::blend(px(a, b, a), px(b, a, 255));
            assert_eq!(p.r, float_blend_channel(a, b), "r {} {}", a, b);
            assert_eq!(p.g, float_blend_channel(b, a), "g {} {}", a, b);
            assert_eq!(p.b, float_blend_channel(a, 255), "b {} {}", a, b);
            assert_eq!(p.padd, 0);
        }
    }
}

#[test]
fn blend_laws_on_concrete_values() {
    let a = px(12, 200, 77);
    let b = px(250, 3, 128);
    assert_eq!(Pixel::blend(a, b), Pixel::blend(b, a));
    assert_eq!(Pixel::blend(a, Pixel::white()), a);
    assert_eq!(Pixel::blend(a, Pixel::black()), Pixel::black());
}

#[test]
fn add_sums_channels() {
    let p = px(100, 50, 1).add(px(155, 200, 2));
    assert_eq!(p, px(255, 250, 3));
}

#[test]
fn bytes_in_frame_buffer_order() {
    let mut p = Pixel::new(1, 2, 3);
    p.set_padd(4);
    assert_eq!(p.to_bytes(), [3, 2, 1, 4]);
}
