//! The format and value model shared by every backend and by the dispatcher.

use vstd::prelude::*;
use vstd::string::StrSliceExecFns;

verus! {

/// What can go wrong when the clipboard is read or written.
#[derive(Debug, PartialEq, Eq)]
pub enum Error {
    /// The requested format is not on the selection right now.
    ContentNotAvailable,
    /// The selection, or a capability, is not offered by the platform.
    ClipboardNotSupported,
    /// A payload could not be read in the encoding it was expected in.
    ConversionFailure,
    /// A native failure, with a description meant for people only.
    Unknown { description: String },
}

/// The mathematical value of an [`Error`].
pub enum ErrorView {
    ContentNotAvailable,
    ClipboardNotSupported,
    ConversionFailure,
    Unknown { description: Seq<char> },
}

impl View for Error {
    type V = ErrorView;

    open spec fn view(&self) -> ErrorView {
        match self {
            Error::ContentNotAvailable => ErrorView::ContentNotAvailable,
            Error::ClipboardNotSupported => ErrorView::ClipboardNotSupported,
            Error::ConversionFailure => ErrorView::ConversionFailure,
            Error::Unknown { description } => ErrorView::Unknown { description: description@ },
        }
    }
}

impl Clone for Error {
    fn clone(&self) -> (e: Error)
        ensures
            e@ == self@,
    {
        match self {
            Error::ContentNotAvailable => Error::ContentNotAvailable,
            Error::ClipboardNotSupported => Error::ClipboardNotSupported,
            Error::ConversionFailure => Error::ConversionFailure,
            Error::Unknown { description } => Error::Unknown { description: description.clone() },
        }
    }
}

/// An [`Error::Unknown`] that carries `s` as its description.
pub fn err(s: &str) -> (e: Error)
    ensures
        e@ == (ErrorView::Unknown { description: s@ }),
{
    Error::Unknown { description: s.to_owned() }
}

/// An [`Error::Unknown`] whose description is `msg`, a colon, a space and
/// `detail`: what the library was doing, and what the platform said.
pub fn into_unknown(msg: &str, detail: &str) -> (e: Error)
    ensures
        e@ == (ErrorView::Unknown { description: msg@ + ": "@ + detail@ }),
{
    let mut description = msg.to_owned();
    description.append(": ");
    description.append(detail);
    Error::Unknown { description }
}

/// Raw pixels of an image: row-major, four bytes (red, green, blue, alpha)
/// for each pixel, so that a 3 by 3 image takes 36 bytes.
///
/// The fields are private: a value exists only if its buffer has exactly
/// `width * height * 4` bytes.
#[derive(Debug, PartialEq, Eq)]
pub struct ImageRgba {
    width: usize,
    height: usize,
    bytes: Vec<u8>,
}

/// The mathematical value of an [`ImageRgba`].
pub struct ImageRgbaView {
    pub width: nat,
    pub height: nat,
    pub bytes: Seq<u8>,
}

impl ImageRgbaView {
    /// The buffer holds four bytes for each of `width * height` pixels.
    pub open spec fn well_formed(self) -> bool {
        self.bytes.len() == self.width * self.height * 4
    }
}

impl View for ImageRgba {
    type V = ImageRgbaView;

    closed spec fn view(&self) -> ImageRgbaView {
        ImageRgbaView {
            width: self.width as nat,
            height: self.height as nat,
            bytes: self.bytes@,
        }
    }
}

impl ImageRgba {
    #[verifier::type_invariant]
    spec fn inv(self) -> bool {
        self.bytes@.len() == self.width * self.height * 4
    }

    /// Builds an image from its dimensions and its pixel buffer. A buffer
    /// whose length is not `width * height * 4` is refused here, with
    /// [`Error::ConversionFailure`], and not at some later use.
    pub fn new(width: usize, height: usize, bytes: Vec<u8>) -> (r: Result<ImageRgba, Error>)
        ensures
            bytes@.len() == width * height * 4 <==> r is Ok,
            r matches Ok(img) ==> img@ == (ImageRgbaView {
                width: width as nat,
                height: height as nat,
                bytes: bytes@,
            }),
            r matches Err(e) ==> e@ == ErrorView::ConversionFailure,
    {
        let len = bytes.len();
        let fits = match width.checked_mul(height) {
            Some(pixels) => match pixels.checked_mul(4) {
                Some(expected) => len == expected,
                None => false,
            },
            None => {
                proof {
                    lemma_product_bounds(width as int, height as int, len as int);
                }
                false
            },
        };
        if fits {
            Ok(ImageRgba { width, height, bytes })
        } else {
            Err(Error::ConversionFailure)
        }
    }

    /// The number of pixels in a row.
    pub fn width(&self) -> (w: usize)
        ensures
            w == self@.width,
    {
        self.width
    }

    /// The number of rows.
    pub fn height(&self) -> (h: usize)
        ensures
            h == self@.height,
    {
        self.height
    }

    /// The pixel buffer.
    pub fn bytes(&self) -> (b: &Vec<u8>)
        ensures
            b@ == self@.bytes,
            self@.well_formed(),
    {
        proof {
            use_type_invariant(self);
        }
        &self.bytes
    }

    /// Gives up the image and keeps its pixel buffer.
    pub fn into_owned_bytes(self) -> (b: Vec<u8>)
        ensures
            b@ == self@.bytes,
            self@.well_formed(),
    {
        proof {
            use_type_invariant(&self);
        }
        self.bytes
    }

    /// A copy of the image that owns its buffer.
    pub fn to_owned_img(&self) -> (img: ImageRgba)
        ensures
            img@ == self@,
    {
        proof {
            use_type_invariant(self);
        }
        ImageRgba { width: self.width, height: self.height, bytes: self.bytes.clone() }
    }
}

impl Clone for ImageRgba {
    fn clone(&self) -> (img: ImageRgba)
        ensures
            img@ == self@,
    {
        self.to_owned_img()
    }
}

/// An image in one of the three forms the library moves around: raw pixels, an
/// encoded PNG stream, or the text of an SVG document.
#[derive(Debug, PartialEq, Eq)]
pub enum ImageData {
    Rgba(ImageRgba),
    Png(Vec<u8>),
    Svg(String),
}

/// The mathematical value of an [`ImageData`].
pub enum ImageDataView {
    Rgba(ImageRgbaView),
    Png(Seq<u8>),
    Svg(Seq<char>),
}

impl View for ImageData {
    type V = ImageDataView;

    open spec fn view(&self) -> ImageDataView {
        match self {
            ImageData::Rgba(img) => ImageDataView::Rgba(img@),
            ImageData::Png(bytes) => ImageDataView::Png(bytes@),
            ImageData::Svg(text) => ImageDataView::Svg(text@),
        }
    }
}

impl ImageDataView {
    /// The bytes that stand for the image: the pixels, the PNG stream, or the
    /// UTF-8 encoding of the SVG text.
    pub open spec fn payload(self) -> Seq<u8> {
        match self {
            ImageDataView::Rgba(img) => img.bytes,
            ImageDataView::Png(bytes) => bytes,
            ImageDataView::Svg(text) => vstd::utf8::encode_utf8(text),
        }
    }
}

impl ImageData {
    /// Raw pixels, refused with [`Error::ConversionFailure`] unless the
    /// buffer has `width * height * 4` bytes.
    pub fn rgba(width: usize, height: usize, bytes: Vec<u8>) -> (r: Result<ImageData, Error>)
        ensures
            bytes@.len() == width * height * 4 <==> r is Ok,
            r matches Ok(image) ==> image@ == ImageDataView::Rgba(
                ImageRgbaView { width: width as nat, height: height as nat, bytes: bytes@ },
            ),
            r matches Err(e) ==> e@ == ErrorView::ConversionFailure,
    {
        match ImageRgba::new(width, height, bytes) {
            Ok(img) => Ok(ImageData::Rgba(img)),
            Err(e) => Err(e),
        }
    }

    /// An encoded PNG stream, taken as it is.
    pub fn png(bytes: Vec<u8>) -> (image: ImageData)
        ensures
            image@ == ImageDataView::Png(bytes@),
    {
        ImageData::Png(bytes)
    }

    /// The text of an SVG document, taken as it is.
    pub fn svg(text: &str) -> (image: ImageData)
        ensures
            image@ == ImageDataView::Svg(text@),
    {
        ImageData::Svg(text.to_owned())
    }

    /// Gives up the image and keeps the bytes that stand for it.
    pub fn into_owned_bytes(self) -> (b: Vec<u8>)
        ensures
            b@ == self@.payload(),
    {
        match self {
            ImageData::Rgba(img) => img.into_owned_bytes(),
            ImageData::Png(bytes) => bytes,
            ImageData::Svg(text) => text.as_str().as_bytes_vec(),
        }
    }

    /// A copy of the image that owns all of its data.
    pub fn to_cloned(&self) -> (image: ImageData)
        ensures
            image@ == self@,
    {
        match self {
            ImageData::Rgba(img) => ImageData::Rgba(img.to_owned_img()),
            ImageData::Png(bytes) => ImageData::Png(bytes.clone()),
            ImageData::Svg(text) => ImageData::Svg(text.clone()),
        }
    }
}

impl Clone for ImageData {
    fn clone(&self) -> (image: ImageData)
        ensures
            image@ == self@,
    {
        self.to_cloned()
    }
}

/// What a caller asks the clipboard for. `Special` names a format by the
/// identifier the platform knows it under.
#[derive(Debug, Clone, Copy, PartialEq, Eq)]
pub enum ClipboardFormat<'a> {
    Text,
    Html,
    Rtf,
    ImageRgba,
    ImagePng,
    ImageSvg,
    FileUrl,
    Special(&'a str),
}

/// The mathematical value of a [`ClipboardFormat`].
pub enum ClipboardFormatView {
    Text,
    Html,
    Rtf,
    ImageRgba,
    ImagePng,
    ImageSvg,
    FileUrl,
    Special(Seq<char>),
}

impl View for ClipboardFormat<'_> {
    type V = ClipboardFormatView;

    open spec fn view(&self) -> ClipboardFormatView {
        match self {
            ClipboardFormat::Text => ClipboardFormatView::Text,
            ClipboardFormat::Html => ClipboardFormatView::Html,
            ClipboardFormat::Rtf => ClipboardFormatView::Rtf,
            ClipboardFormat::ImageRgba => ClipboardFormatView::ImageRgba,
            ClipboardFormat::ImagePng => ClipboardFormatView::ImagePng,
            ClipboardFormat::ImageSvg => ClipboardFormatView::ImageSvg,
            ClipboardFormat::FileUrl => ClipboardFormatView::FileUrl,
            ClipboardFormat::Special(name) => ClipboardFormatView::Special(name@),
        }
    }
}

/// What the clipboard holds in one format, or [`ClipboardData::Absent`] where
/// the format that was asked for is not there.
#[derive(Debug, PartialEq, Eq)]
pub enum ClipboardData {
    Text(String),
    Html(String),
    Rtf(String),
    Image(ImageData),
    FileUrl(Vec<String>),
    Special((String, Vec<u8>)),
    Absent,
}

/// The mathematical value of a [`ClipboardData`].
pub enum ClipboardDataView {
    Text(Seq<char>),
    Html(Seq<char>),
    Rtf(Seq<char>),
    Image(ImageDataView),
    FileUrl(Seq<Seq<char>>),
    Special(Seq<char>, Seq<u8>),
    Absent,
}

/// The texts of a list of strings.
pub open spec fn texts(list: Seq<String>) -> Seq<Seq<char>> {
    Seq::new(list.len(), |i: int| list[i]@)
}

impl View for ClipboardData {
    type V = ClipboardDataView;

    open spec fn view(&self) -> ClipboardDataView {
        match self {
            ClipboardData::Text(text) => ClipboardDataView::Text(text@),
            ClipboardData::Html(html) => ClipboardDataView::Html(html@),
            ClipboardData::Rtf(rtf) => ClipboardDataView::Rtf(rtf@),
            ClipboardData::Image(image) => ClipboardDataView::Image(image@),
            ClipboardData::FileUrl(urls) => ClipboardDataView::FileUrl(texts(urls@)),
            ClipboardData::Special(pair) => ClipboardDataView::Special(pair.0@, pair.1@),
            ClipboardData::Absent => ClipboardDataView::Absent,
        }
    }
}

/// A copy of a list of strings.
pub fn clone_strings(list: &Vec<String>) -> (copy: Vec<String>)
    ensures
        texts(copy@) == texts(list@),
{
    let mut copy: Vec<String> = Vec::new();
    let mut i: usize = 0;
    while i < list.len()
        invariant
            i <= list.len(),
            copy@.len() == i,
            forall|k: int| 0 <= k < i ==> copy@[k]@ == list@[k]@,
        decreases list.len() - i,
    {
        copy.push(list[i].clone());
        i += 1;
    }
    assert(texts(copy@) =~= texts(list@));
    copy
}

impl Clone for ClipboardData {
    fn clone(&self) -> (data: ClipboardData)
        ensures
            data@ == self@,
    {
        match self {
            ClipboardData::Text(text) => ClipboardData::Text(text.clone()),
            ClipboardData::Html(html) => ClipboardData::Html(html.clone()),
            ClipboardData::Rtf(rtf) => ClipboardData::Rtf(rtf.clone()),
            ClipboardData::Image(image) => ClipboardData::Image(image.to_cloned()),
            ClipboardData::FileUrl(urls) => ClipboardData::FileUrl(clone_strings(urls)),
            ClipboardData::Special(pair) => ClipboardData::Special((pair.0.clone(), pair.1.clone())),
            ClipboardData::Absent => ClipboardData::Absent,
        }
    }
}

/// The slot of the platform that a call reads or writes.
#[derive(Debug, Clone, Copy, PartialEq, Eq, Structural)]
pub enum LinuxClipboardKind {
    /// The clipboard proper.
    Clipboard,
    /// The selection that follows the pointer.
    Primary,
    /// A third slot that few platforms have.
    Secondary,
}

/// How long a write keeps serving what it offered.
#[derive(Debug, Clone, Copy, PartialEq, Eq, Structural)]
pub enum WaitConfig {
    /// The call returns at once; a detached holder serves the offer.
    Immediate,
    /// The call blocks, serving paste requests, until another application
    /// takes the selection.
    Forever,
}

/// Access to a clipboard, for those who bring a backend of their own. The
/// library promises nothing of what an implementation returns.
pub trait ClipboardProvider: Sized {
    /// Opens the clipboard.
    fn new() -> Result<Self, Error>;

    /// The text on the clipboard.
    fn get_text(&mut self) -> Result<String, Error>;

    /// Puts `text` on the clipboard.
    fn set_text(&mut self, text: String) -> Result<(), Error>;

    /// The image on the clipboard.
    fn get_image(&mut self) -> Result<ImageData, Error>;

    /// Puts `data` on the clipboard.
    fn set_image(&mut self, data: ImageData) -> Result<(), Error>;
}

/// Where `width * height` does not fit the machine word, no buffer of a
/// length that does fit holds `width * height * 4` bytes.
proof fn lemma_product_bounds(width: int, height: int, len: int)
    requires
        0 <= width,
        0 <= height,
        width * height > usize::MAX,
        len <= usize::MAX,
    ensures
        len != width * height * 4,
{
    assert(width * height * 4 >= width * height) by (nonlinear_arith)
        requires
            width * height >= 0,
    ;
}

} // verus!
