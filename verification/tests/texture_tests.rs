use draw::texture::supported_components;
use draw::texture::TextureMap;

fn image_2x2_rgba() -> Vec<u8> {
    // top row: texel (0, top), texel (1, top); bottom row likewise
    vec![
        1, 2, 3, 4, 5, 6, 7, 8, //
        9, 10, 11, 12, 13, 14, 15, 16,
    ]
}

#[test]
fn default_texture_is_one_white_texel() {
    let t = TextureMap::default();
    assert_eq!(t.width(), 1);
    assert_eq!(t.height(), 1);
    assert_eq!(t.components(), 3);
    assert_eq!(t.get_rgb_texel(0, 0), [255, 255, 255]);
}

#[test]
fn rows_are_counted_from_the_bottom() {
    let t = TextureMap::new(image_2x2_rgba(), 2, 2, 4);
    assert_eq!(t.get_rgba_texel(0, 0), [9, 10, 11, 12]);
    assert_eq!(t.get_rgba_texel(1, 0), [13, 14, 15, 16]);
    assert_eq!(t.get_rgba_texel(0, 1), [1, 2, 3, 4]);
    assert_eq!(t.get_rgba_texel(1, 1), [5, 6, 7, 8]);
    assert_eq!(t.get_rgb_texel(1, 1), [5, 6, 7]);
    assert_eq!(t.get_rgb_texel(0, 0), [9, 10, 11]);
}

#[test]
fn three_component_texels() {
    let img: Vec<u8> = (0..18).collect();
    let t = TextureMap::new(img, 3, 2, 3);
    // bottom row starts at byte 9
    assert_eq!(t.get_rgb_texel(0, 0), [9, 10, 11]);
    assert_eq!(t.get_rgb_texel(2, 0), [15, 16, 17]);
    assert_eq!(t.get_rgb_texel(2, 1), [6, 7, 8]);
}

#[test]
fn column_past_the_end_reads_the_next_row() {
    let t = TextureMap::new(image_2x2_rgba(), 2, 2, 4);
    assert_eq!(t.get_rgba_texel(2, 1), [9, 10, 11, 12]);
}

#[test]
fn rgb_and_rgba_images_only() {
    assert!(supported_components(3));
    assert!(supported_components(4));
    assert!(!supported_components(1));
    assert!(!supported_components(2));
    assert!(!supported_components(0));
}
