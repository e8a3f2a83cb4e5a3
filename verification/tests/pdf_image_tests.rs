use std::io::{Cursor, Read};

use print_queue::pdf_image::pdf_image;

fn png_2x1() -> (Vec<u8>, Vec<u8>) {
    let pixels = vec![255u8, 0, 0, 0, 0, 255];
    let img = image::RgbImage::from_raw(2, 1, pixels.clone()).unwrap();
    let mut out = Cursor::new(Vec::new());
    img.write_to(&mut out, image::ImageFormat::Png).unwrap();
    (out.into_inner(), pixels)
}

#[test]
fn other_images_are_zlib_compressed_rgb() {
    let (png, pixels) = png_2x1();
    let img = pdf_image(png.clone(), false).unwrap();
    assert!(img.flate);
    assert_eq!((img.width, img.height), (2, 1));
    assert_ne!(img.data, png);
    let mut raw = Vec::new();
    flate2::read::ZlibDecoder::new(img.data.as_slice()).read_to_end(&mut raw).unwrap();
    assert_eq!(raw, pixels);
}

#[test]
fn jpeg_files_are_embedded_as_they_are() {
    let (png, _) = png_2x1();
    let img = pdf_image(png.clone(), true).unwrap();
    assert!(!img.flate);
    assert_eq!(img.data, png);
    assert_eq!((img.width, img.height), (2, 1));
}

#[test]
fn undecodable_bytes_are_an_error() {
    match pdf_image(b"not an image".to_vec(), false) {
        Err(e) => assert!(e.starts_with("Failed to decode image: ")),
        Ok(_) => panic!("decoded garbage"),
    }
}
