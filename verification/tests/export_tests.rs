use draw::canvas::Canvas;
use draw::pixel::Pixel;
use draw::control::ImgFileFormat;
use draw::export::{centered_offset, file_extensions, output_extension, swap_red_blue, window_center};

#[test]
fn extensions_of_formats() {
    assert_eq!(file_extensions(ImgFileFormat::Jpeg), vec!["jpeg", "jpg"]);
    assert_eq!(file_extensions(ImgFileFormat::Png), vec!["png"]);
}

#[test]
fn user_extension_kept_when_valid() {
    assert_eq!(output_extension(ImgFileFormat::Jpeg, Some("jpg")), "jpg");
    assert_eq!(output_extension(ImgFileFormat::Jpeg, Some("jpeg")), "jpeg");
    assert_eq!(output_extension(ImgFileFormat::Png, Some("png")), "png");
}

#[test]
fn invalid_or_missing_extension_replaced() {
    assert_eq!(output_extension(ImgFileFormat::Jpeg, Some("png")), "jpeg");
    assert_eq!(output_extension(ImgFileFormat::Png, Some("jpg")), "png");
    assert_eq!(output_extension(ImgFileFormat::Png, Some("PNG")), "png");
    assert_eq!(output_extension(ImgFileFormat::Jpeg, None), "jpeg");
    assert_eq!(output_extension(ImgFileFormat::Png, Some("")), "png");
}

#[test]
fn swap_red_and_blue() {
    let mut f = vec![1, 2, 3, 4, 5, 6, 7, 8];
    swap_red_blue(&mut f);
    assert_eq!(f, vec![3, 2, 1, 4, 7, 6, 5, 8]);
    swap_red_blue(&mut f);
    assert_eq!(f, vec![1, 2, 3, 4, 5, 6, 7, 8]);
}

#[test]
fn swap_with_trailing_partial_pixel() {
    let mut f = vec![1, 2, 3, 4, 5, 6, 7];
    swap_red_blue(&mut f);
    assert_eq!(f, vec![3, 2, 1, 4, 7, 6, 5]);
    let mut e: Vec<u8> = vec![];
    swap_red_blue(&mut e);
    assert!(e.is_empty());
}

#[test]
fn centering() {
    assert_eq!(centered_offset(1920, 800), 560);
    assert_eq!(centered_offset(801, 800), 0);
    assert_eq!(centered_offset(800, 800), 0);
    assert_eq!(window_center(800, 600), (400, 300));
    assert_eq!(window_center(801, 1), (400, 0));
}

#[test]
fn exported_canvas_bytes_are_rgb() {
    let mut c = Canvas::new(2, 1);
    c.draw_pixel_coord(0, 0, Pixel::new(10, 20, 30));
    c.draw_pixel_coord(1, 0, Pixel::red());
    let mut bytes = c.as_bytes_slice();
    swap_red_blue(&mut bytes);
    assert_eq!(bytes, vec![10, 20, 30, 0, 255, 0, 0, 0]);
}
