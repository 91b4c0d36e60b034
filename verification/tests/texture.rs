use learn_glium::texture::{flip_rows, texture_image};
use std::io::Cursor;

#[test]
fn flip_rows_reverses_row_order() {
    let pixels = vec![
        10u8, 20, 30, 40, // row 0, one RGBA pixel
        50, 60, 70, 80, // row 1
        90, 100, 110, 120, // row 2
    ];
    let flipped = flip_rows(&pixels, 1, 3);
    assert_eq!(flipped, vec![90u8, 100, 110, 120, 50, 60, 70, 80, 10, 20, 30, 40]);
}

#[test]
fn flip_rows_keeps_bytes_within_a_row() {
    let pixels = vec![
        1u8, 2, 3, 4, 5, 6, 7, 8, // row 0, two RGBA pixels
        9, 10, 11, 12, 13, 14, 15, 16, // row 1
    ];
    let flipped = flip_rows(&pixels, 2, 2);
    assert_eq!(flipped, vec![9u8, 10, 11, 12, 13, 14, 15, 16, 1, 2, 3, 4, 5, 6, 7, 8]);
}

#[test]
fn flip_rows_empty() {
    let pixels: Vec<u8> = vec![];
    assert_eq!(flip_rows(&pixels, 0, 0), Vec::<u8>::new());
}

#[test]
fn png_decode_flips_rows() {
    let top = [10u8, 20, 30, 255];
    let bottom = [50u8, 60, 70, 255];
    let mut raw = Vec::new();
    raw.extend_from_slice(&top);
    raw.extend_from_slice(&bottom);
    let img = image::RgbaImage::from_raw(1, 2, raw).unwrap();
    let mut bytes: Vec<u8> = Vec::new();
    img.write_to(&mut Cursor::new(&mut bytes), image::ImageOutputFormat::Png).unwrap();

    let tex = texture_image(&bytes).unwrap();
    assert_eq!(tex.width(), 1);
    assert_eq!(tex.height(), 2);
    let mut expected = Vec::new();
    expected.extend_from_slice(&bottom);
    expected.extend_from_slice(&top);
    assert_eq!(tex.pixels(), &expected);
}

#[test]
fn invalid_png_is_none() {
    let bytes = vec![1u8, 2, 3, 4, 5];
    assert!(texture_image(&bytes).is_none());
}
