use arboard::codec::{decode_from_png, decode_from_tiff, encode_as_png};
use arboard::text::{bytes_eq, bytes_start_with, decode_text, str_eq};
use arboard::{Error, ImageRgba};

fn sample() -> ImageRgba {
    ImageRgba::new(
        2,
        2,
        vec![255, 100, 100, 255, 100, 255, 100, 100, 100, 100, 255, 100, 0, 0, 0, 255],
    )
    .unwrap()
}

#[test]
fn png_round_trips() {
    let image = sample();
    let png = encode_as_png(&image).unwrap();
    assert_eq!(&png[..8], &[0x89, b'P', b'N', b'G', 0x0d, 0x0a, 0x1a, 0x0a]);
    assert_ne!(&png, image.bytes());
    let back = decode_from_png(png).unwrap();
    assert_eq!(back, image);
}

#[test]
fn png_round_trips_for_a_wide_and_a_tall_image() {
    let wide = ImageRgba::new(5, 1, (0..20).collect()).unwrap();
    assert_eq!(decode_from_png(encode_as_png(&wide).unwrap()).unwrap(), wide);
    let tall = ImageRgba::new(1, 3, (100..112).collect()).unwrap();
    assert_eq!(decode_from_png(encode_as_png(&tall).unwrap()).unwrap(), tall);
}

#[test]
fn png_round_trips_for_every_byte_value_and_for_clear_pixels() {
    let every: Vec<u8> = (0..=255u8).flat_map(|b| [b, b.wrapping_mul(7), 255 - b, b]).collect();
    let image = ImageRgba::new(16, 16, every).unwrap();
    assert_eq!(decode_from_png(encode_as_png(&image).unwrap()).unwrap(), image);
    let clear = ImageRgba::new(2, 1, vec![9, 8, 7, 0, 1, 2, 3, 0]).unwrap();
    assert_eq!(decode_from_png(encode_as_png(&clear).unwrap()).unwrap(), clear);
}

#[test]
fn png_encoding_is_deterministic() {
    assert_eq!(encode_as_png(&sample()).unwrap(), encode_as_png(&sample()).unwrap());
}

#[test]
fn an_image_without_pixels_does_not_encode() {
    let empty = ImageRgba::new(0, 0, vec![]).unwrap();
    assert_eq!(encode_as_png(&empty), Err(Error::ConversionFailure));
    let no_rows = ImageRgba::new(3, 0, vec![]).unwrap();
    assert_eq!(encode_as_png(&no_rows), Err(Error::ConversionFailure));
}

#[test]
fn a_malformed_stream_is_a_conversion_failure() {
    assert_eq!(decode_from_png(vec![]), Err(Error::ConversionFailure));
    assert_eq!(decode_from_png(b"not a png".to_vec()), Err(Error::ConversionFailure));
    let mut cut = encode_as_png(&sample()).unwrap();
    cut.truncate(20);
    assert_eq!(decode_from_png(cut), Err(Error::ConversionFailure));
    assert_eq!(decode_from_tiff(b"not a tiff"), Err(Error::ConversionFailure));
    assert_eq!(decode_from_tiff(&encode_as_png(&sample()).unwrap()), Err(Error::ConversionFailure));
}

#[test]
fn a_png_of_fewer_channels_decodes_to_four() {
    let mut png = Vec::new();
    let encoder = image::codecs::png::PngEncoder::new(&mut png);
    image::ImageEncoder::write_image(encoder, &[10, 20, 30], 1, 1, image::ExtendedColorType::Rgb8)
        .unwrap();
    let image = decode_from_png(png).unwrap();
    assert_eq!((image.width(), image.height()), (1, 1));
    assert_eq!(image.bytes(), &vec![10, 20, 30, 255]);
}

#[test]
fn tiff_decodes_to_the_pixels_it_was_made_of() {
    let image = sample();
    let mut tiff = std::io::Cursor::new(Vec::new());
    let encoder = image::codecs::tiff::TiffEncoder::new(&mut tiff);
    image::ImageEncoder::write_image(
        encoder,
        image.bytes(),
        2,
        2,
        image::ExtendedColorType::Rgba8,
    )
    .unwrap();
    let tiff = tiff.into_inner();
    assert_ne!(&tiff, image.bytes());
    assert_eq!(decode_from_tiff(&tiff).unwrap(), image);
}

#[test]
fn text_must_be_utf8() {
    assert_eq!(decode_text("héllo 🖼️".as_bytes().to_vec()).unwrap(), "héllo 🖼️");
    assert_eq!(decode_text(vec![]).unwrap(), "");
    assert_eq!(decode_text(vec![0x68, 0xff]), Err(Error::ConversionFailure));
    assert_eq!(decode_text(vec![0xed, 0xa0, 0x80]), Err(Error::ConversionFailure));
    assert_eq!(decode_text(vec![0xc0, 0xaf]), Err(Error::ConversionFailure));
}

#[test]
fn texts_and_bytes_compare() {
    assert!(str_eq("x-test/marker", "x-test/marker"));
    assert!(!str_eq("x-test/marker", "x-test/markers"));
    assert!(!str_eq("a", "b"));
    assert!(str_eq("", ""));
    assert!(bytes_eq(&[1, 2], &[1, 2]));
    assert!(!bytes_eq(&[1, 2], &[1, 3]));
    assert!(bytes_start_with(b"file://x", b"file://"));
    assert!(bytes_start_with(b"abc", b""));
    assert!(!bytes_start_with(b"fil", b"file://"));
    assert!(!bytes_start_with(b"File://x", b"file://"));
}
