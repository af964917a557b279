use archipelago::icon::load_icon;
use std::io::Cursor;

fn png_of(img: image::DynamicImage) -> Vec<u8> {
    let mut buf: Vec<u8> = Vec::new();
    img.write_to(&mut Cursor::new(&mut buf), image::ImageFormat::Png).unwrap();
    buf
}

#[test]
fn rgba_png_decodes_to_its_pixels() {
    let pixels: Vec<u8> = vec![1, 2, 3, 4, 250, 251, 252, 253];
    let img = image::RgbaImage::from_raw(2, 1, pixels.clone()).unwrap();
    let bytes = png_of(image::DynamicImage::ImageRgba8(img));
    let icon = load_icon(&bytes).unwrap();
    assert_eq!(icon.width, 2);
    assert_eq!(icon.height, 1);
    assert_eq!(icon.rgba, pixels);
}

#[test]
fn rgb_png_is_not_an_rgba_icon() {
    let img = image::RgbImage::from_raw(1, 1, vec![9, 8, 7]).unwrap();
    let bytes = png_of(image::DynamicImage::ImageRgb8(img));
    assert!(load_icon(&bytes).is_none());
}

#[test]
fn garbage_is_no_icon() {
    assert!(load_icon(&[0u8, 1, 2, 3, 4, 5]).is_none());
    assert!(load_icon(&[]).is_none());
}
