//! Raw pixels to and from encoded image streams.
//!
//! The streams themselves are the work of the `image` crate. What it returns
//! for given bytes is named here and not spelled out; what the library does
//! with it is stated exactly.

use vstd::prelude::*;

use crate::common::Error;
use crate::common::ErrorView;
use crate::common::ImageRgba;
use crate::common::ImageRgbaView;
use crate::text::bytes_eq;

verus! {

/// The error of the `image` crate.
#[verifier::external_type_specification]
#[verifier::external_body]
pub struct ExImageError(::image::ImageError);

/// The PNG stream that the `image` crate writes for an image of `width` by
/// `height` pixels of four 8-bit channels, where it writes one.
pub uninterp spec fn png_stream(pixels: Seq<u8>, width: u32, height: u32) -> Option<Seq<u8>>;

/// The width, the height and the pixels, four 8-bit channels each, of the
/// image that the `image` crate reads from a PNG stream, where it reads one.
pub uninterp spec fn png_pixels(stream: Seq<u8>) -> Option<(u32, u32, Seq<u8>)>;

/// The width, the height and the pixels, four 8-bit channels each, of the
/// image that the `image` crate reads from a TIFF stream, where it reads one.
pub uninterp spec fn tiff_pixels(stream: Seq<u8>) -> Option<(u32, u32, Seq<u8>)>;

/// `image::codecs::png::PngEncoder::write_image` with the colour type
/// `Rgba8`, on an encoder made by `PngEncoder::new` over an empty vector: the
/// stream that was written, or the crate's error. The crate panics on a
/// buffer of another length than `width * height * 4`.
#[verifier::external_body]
fn write_png(pixels: &[u8], width: u32, height: u32) -> (r: Result<Vec<u8>, ::image::ImageError>)
    requires
        pixels@.len() == width * height * 4,
    ensures
        r matches Ok(stream) ==> png_stream(pixels@, width, height) == Some(stream@),
        r is Err ==> png_stream(pixels@, width, height) is None,
{
    let mut stream = Vec::new();
    let encoder = ::image::codecs::png::PngEncoder::new(&mut stream);
    ::image::ImageEncoder::write_image(
        encoder,
        pixels,
        width,
        height,
        ::image::ExtendedColorType::Rgba8,
    )?;
    Ok(stream)
}

/// `image::load_from_memory_with_format` with the format `Png`, then
/// `DynamicImage::into_rgba8`: the dimensions and the raw buffer of the image
/// that was read, or the crate's error.
#[verifier::external_body]
fn read_png(stream: &[u8]) -> (r: Result<(u32, u32, Vec<u8>), ::image::ImageError>)
    ensures
        r matches Ok(parts) ==> png_pixels(stream@) == Some((parts.0, parts.1, parts.2@)),
        r is Err ==> png_pixels(stream@) is None,
{
    let image = ::image::load_from_memory_with_format(stream, ::image::ImageFormat::Png)?;
    let image = image.into_rgba8();
    Ok((image.width(), image.height(), image.into_raw()))
}

/// `image::ImageReader::with_format` with the format `Tiff` over a cursor on
/// the stream, then `decode` and `DynamicImage::into_rgba8`: the dimensions
/// and the raw buffer of the image that was read, or the crate's error.
#[verifier::external_body]
fn read_tiff(stream: &[u8]) -> (r: Result<(u32, u32, Vec<u8>), ::image::ImageError>)
    ensures
        r matches Ok(parts) ==> tiff_pixels(stream@) == Some((parts.0, parts.1, parts.2@)),
        r is Err ==> tiff_pixels(stream@) is None,
{
    let cursor = std::io::Cursor::new(stream);
    let image = ::image::ImageReader::with_format(cursor, ::image::ImageFormat::Tiff).decode()?;
    let image = image.into_rgba8();
    Ok((image.width(), image.height(), image.into_raw()))
}

/// What a result that carries raw pixels stands for.
pub open spec fn rgba_result(r: Result<ImageRgba, Error>) -> Result<ImageRgbaView, ErrorView> {
    match r {
        Ok(image) => Ok(image@),
        Err(e) => Err(e@),
    }
}

/// What a result that carries bytes stands for.
pub open spec fn bytes_result(r: Result<Vec<u8>, Error>) -> Result<Seq<u8>, ErrorView> {
    match r {
        Ok(bytes) => Ok(bytes@),
        Err(e) => Err(e@),
    }
}

/// The image that decoded parts make: they must be there, and the buffer
/// must hold four bytes for each pixel.
pub open spec fn rgba_of(parts: Option<(u32, u32, Seq<u8>)>) -> Result<ImageRgbaView, ErrorView> {
    match parts {
        Some((width, height, pixels)) => if pixels.len() == width * height * 4 {
            Ok(ImageRgbaView { width: width as nat, height: height as nat, bytes: pixels })
        } else {
            Err(ErrorView::ConversionFailure)
        },
        None => Err(ErrorView::ConversionFailure),
    }
}

/// Whether a stream decodes to exactly this image: the same width, the same
/// height and the same bytes.
pub open spec fn decodes_to(stream: Seq<u8>, image: ImageRgbaView) -> bool {
    rgba_of(png_pixels(stream)) == Ok::<ImageRgbaView, ErrorView>(image)
}

/// The PNG stream for an image: its dimensions must fit 32 bits, the
/// encoder must accept it, and what the encoder wrote must decode to the
/// image again.
pub open spec fn png_of(image: ImageRgbaView) -> Result<Seq<u8>, ErrorView> {
    if image.width <= u32::MAX && image.height <= u32::MAX {
        match png_stream(image.bytes, image.width as u32, image.height as u32) {
            Some(stream) => if decodes_to(stream, image) {
                Ok(stream)
            } else {
                Err(ErrorView::ConversionFailure)
            },
            None => Err(ErrorView::ConversionFailure),
        }
    } else {
        Err(ErrorView::ConversionFailure)
    }
}

/// Decoding the PNG stream of an image gives the image back, whenever the
/// image has a PNG stream.
pub proof fn lemma_png_round_trip(image: ImageRgbaView)
    requires
        png_of(image) is Ok,
    ensures
        rgba_of(png_pixels(png_of(image)->Ok_0)) == Ok::<ImageRgbaView, ErrorView>(image),
{
}

/// Encodes raw pixels as a PNG stream. The stream is handed out only after
/// it was decoded again and gave the same image, so that nothing is lost on
/// the way through it. An image that the encoder refuses, one whose width
/// or height does not fit 32 bits, and one whose stream does not decode to
/// it give [`Error::ConversionFailure`].
pub fn encode_as_png(image: &ImageRgba) -> (r: Result<Vec<u8>, Error>)
    ensures
        bytes_result(r) == png_of(image@),
        r matches Ok(png) ==> decodes_to(png@, image@),
{
    let width = image.width();
    let height = image.height();
    if width > u32::MAX as usize || height > u32::MAX as usize {
        return Err(Error::ConversionFailure);
    }
    let pixels = image.bytes();
    let stream = match write_png(pixels.as_slice(), width as u32, height as u32) {
        Ok(stream) => stream,
        Err(_) => {
            return Err(Error::ConversionFailure);
        },
    };
    let same = match read_png(stream.as_slice()) {
        Ok(parts) => parts.0 == width as u32 && parts.1 == height as u32 && bytes_eq(
            parts.2.as_slice(),
            pixels.as_slice(),
        ),
        Err(_) => false,
    };
    if same {
        Ok(stream)
    } else {
        Err(Error::ConversionFailure)
    }
}

/// The image that decoded parts make.
fn rgba_from_parts(width: u32, height: u32, pixels: Vec<u8>) -> (r: Result<ImageRgba, Error>)
    ensures
        rgba_result(r) == rgba_of(Some((width, height, pixels@))),
{
    ImageRgba::new(width as usize, height as usize, pixels)
}

/// Decodes a PNG stream into raw pixels. A stream that the decoder refuses
/// gives [`Error::ConversionFailure`].
pub fn decode_from_png(png: Vec<u8>) -> (r: Result<ImageRgba, Error>)
    ensures
        rgba_result(r) == rgba_of(png_pixels(png@)),
{
    match read_png(png.as_slice()) {
        Ok(parts) => rgba_from_parts(parts.0, parts.1, parts.2),
        Err(_) => Err(Error::ConversionFailure),
    }
}

/// Decodes a TIFF stream into raw pixels. A stream that the decoder refuses
/// gives [`Error::ConversionFailure`].
pub fn decode_from_tiff(tiff: &[u8]) -> (r: Result<ImageRgba, Error>)
    ensures
        rgba_result(r) == rgba_of(tiff_pixels(tiff@)),
{
    match read_tiff(tiff) {
        Ok(parts) => rgba_from_parts(parts.0, parts.1, parts.2),
        Err(_) => Err(Error::ConversionFailure),
    }
}

} // verus!
