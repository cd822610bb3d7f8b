//! The Wayland backend.
//!
//! A session with the compositor can paste one MIME type from a selection
//! and can offer a list of sources on one. This module says what to paste
//! or to offer for a clipboard operation, and reads what the session
//! reported. It never talks to the compositor itself.

use vstd::prelude::*;
use vstd::slice::slice_to_vec;
use vstd::string::StrSliceExecFns;
use vstd::string::StringExecFns;
use vstd::utf8::encode_utf8;
use vstd::utf8::encode_utf8_decode_utf8;
use vstd::utf8::encode_utf8_valid_utf8;

use crate::codec::decode_from_png;
use crate::codec::decodes_to;
use crate::codec::encode_as_png;
use crate::codec::png_of;
use crate::codec::png_pixels;
use crate::codec::rgba_of;
use crate::common::into_unknown;
use crate::common::texts;
use crate::common::ClipboardData;
use crate::common::ClipboardDataView;
use crate::common::ClipboardFormat;
use crate::common::ClipboardFormatView;
use crate::common::Error;
use crate::common::ErrorView;
use crate::common::ImageData;
use crate::common::ImageDataView;
use crate::common::ImageRgba;
use crate::common::LinuxClipboardKind;
use crate::common::WaitConfig;
use crate::dispatch::all_match;
use crate::dispatch::check_pairs;
use crate::dispatch::item_view;
use crate::dispatch::pair_data;
use crate::dispatch::same_form;
use crate::dispatch::tag_matches;
use crate::dispatch::ItemView;
use crate::text::decode_text;
use crate::text::text_of;
use crate::url::encode_uri_list;
use crate::url::lines_of;
use crate::url::parse_plain_uri_list;
use crate::url::paths_of;
use crate::url::uri_list_of;
use crate::url::EncodeSet;

verus! {

pub const MIME_PNG: &'static str = "image/png";

pub const MIME_SVG: &'static str = "image/svg+xml";

pub const MIME_HTML: &'static str = "text/html";

pub const MIME_RTF: &'static str = "text/rtf";

pub const MIME_URL_LIST: &'static str = "text/uri-list";

/// The selections that the compositor may have.
#[derive(Debug, Clone, Copy, PartialEq, Eq, Structural)]
pub enum ClipboardType {
    /// The clipboard proper.
    Regular,
    /// The primary selection.
    Primary,
}

/// The MIME type of a paste or of an offer.
#[derive(Debug, PartialEq, Eq)]
pub enum MimeType {
    /// Plain text, under whichever of its common names.
    Text,
    /// The type of this name.
    Specific(String),
}

/// The mathematical value of a [`MimeType`].
pub enum MimeTypeView {
    Text,
    Specific(Seq<char>),
}

impl View for MimeType {
    type V = MimeTypeView;

    open spec fn view(&self) -> MimeTypeView {
        match self {
            MimeType::Text => MimeTypeView::Text,
            MimeType::Specific(name) => MimeTypeView::Specific(name@),
        }
    }
}

impl Clone for MimeType {
    fn clone(&self) -> (mime: MimeType)
        ensures
            mime@ == self@,
    {
        match self {
            MimeType::Text => MimeType::Text,
            MimeType::Specific(name) => MimeType::Specific(name.clone()),
        }
    }
}

/// The bytes of one representation, with the MIME type they are offered
/// under.
#[derive(Debug, PartialEq, Eq)]
pub struct MimeSource {
    pub source: Vec<u8>,
    pub mime_type: MimeType,
}

/// The mathematical value of a [`MimeSource`].
pub struct MimeSourceView {
    pub source: Seq<u8>,
    pub mime_type: MimeTypeView,
}

impl View for MimeSource {
    type V = MimeSourceView;

    open spec fn view(&self) -> MimeSourceView {
        MimeSourceView { source: self.source@, mime_type: self.mime_type@ }
    }
}

impl Clone for MimeSource {
    fn clone(&self) -> (source: MimeSource)
        ensures
            source@ == self@,
    {
        MimeSource { source: self.source.clone(), mime_type: self.mime_type.clone() }
    }
}

/// What the session is asked to paste.
#[derive(Debug, PartialEq, Eq)]
pub struct PasteRequest {
    pub clipboard: ClipboardType,
    pub mime_type: MimeType,
}

/// What the session is asked to offer: all the sources together, as the
/// representations of one clipboard entry that takes the place of whatever
/// the selection held.
#[derive(Debug, PartialEq, Eq)]
pub struct CopyRequest {
    /// Whether the call serves the offer itself, until another application
    /// takes the selection.
    pub foreground: bool,
    pub clipboard: ClipboardType,
    pub sources: Vec<MimeSource>,
}

/// How a paste failed, as the session reports it.
#[derive(Debug, PartialEq, Eq)]
pub enum PasteError {
    /// The selection holds nothing.
    ClipboardEmpty,
    /// The selection does not hold the MIME type.
    NoMimeType,
    /// The compositor has no primary selection.
    PrimarySelectionUnsupported,
    /// Anything else, in the session's words.
    Other(String),
    /// The payload was there, and reading it from the pipe failed.
    Pipe(String),
}

/// How an offer failed, as the session reports it.
#[derive(Debug, PartialEq, Eq)]
pub enum CopyError {
    /// The compositor has no primary selection.
    PrimarySelectionUnsupported,
    /// Anything else, in the session's words.
    Other(String),
}

/// The selection of the compositor that a slot stands for. There is none
/// for the secondary slot.
pub open spec fn clipboard_type_of(selection: LinuxClipboardKind) -> Result<ClipboardType, ErrorView> {
    match selection {
        LinuxClipboardKind::Clipboard => Ok(ClipboardType::Regular),
        LinuxClipboardKind::Primary => Ok(ClipboardType::Primary),
        LinuxClipboardKind::Secondary => Err(ErrorView::ClipboardNotSupported),
    }
}

impl LinuxClipboardKind {
    /// The selection of the compositor that the slot stands for. The
    /// secondary slot gives [`Error::ClipboardNotSupported`]: no other
    /// selection takes its place.
    pub fn try_into(self) -> (r: Result<ClipboardType, Error>)
        ensures
            match r {
                Ok(clipboard) => clipboard_type_of(self) == Ok::<ClipboardType, ErrorView>(clipboard),
                Err(e) => clipboard_type_of(self) == Err::<ClipboardType, ErrorView>(e@),
            },
    {
        match self {
            LinuxClipboardKind::Clipboard => Ok(ClipboardType::Regular),
            LinuxClipboardKind::Primary => Ok(ClipboardType::Primary),
            LinuxClipboardKind::Secondary => Err(Error::ClipboardNotSupported),
        }
    }
}

/// The MIME type under which a format is pasted.
pub open spec fn mime_of(format: ClipboardFormatView) -> MimeTypeView {
    match format {
        ClipboardFormatView::Text => MimeTypeView::Text,
        ClipboardFormatView::Html => MimeTypeView::Specific(MIME_HTML@),
        ClipboardFormatView::Rtf => MimeTypeView::Specific(MIME_RTF@),
        ClipboardFormatView::ImageRgba => MimeTypeView::Specific(MIME_PNG@),
        ClipboardFormatView::ImagePng => MimeTypeView::Specific(MIME_PNG@),
        ClipboardFormatView::ImageSvg => MimeTypeView::Specific(MIME_SVG@),
        ClipboardFormatView::FileUrl => MimeTypeView::Specific(MIME_URL_LIST@),
        ClipboardFormatView::Special(name) => MimeTypeView::Specific(name),
    }
}

/// The MIME type of this name.
fn specific(name: &str) -> (mime: MimeType)
    ensures
        mime@ == MimeTypeView::Specific(name@),
{
    MimeType::Specific(String::from_str(name))
}

/// The Wayland backend. It holds nothing: the session is the caller's.
#[derive(Debug, Clone, Copy, PartialEq, Eq, Structural)]
pub struct Clipboard {}

/// What the session reported of a paste: the payload, or how it failed.
pub type PasteOutcome = Result<Vec<u8>, PasteError>;

/// The mathematical value of a [`PasteError`].
pub enum PasteErrorView {
    ClipboardEmpty,
    NoMimeType,
    PrimarySelectionUnsupported,
    Other(Seq<char>),
    Pipe(Seq<char>),
}

impl View for PasteError {
    type V = PasteErrorView;

    open spec fn view(&self) -> PasteErrorView {
        match self {
            PasteError::ClipboardEmpty => PasteErrorView::ClipboardEmpty,
            PasteError::NoMimeType => PasteErrorView::NoMimeType,
            PasteError::PrimarySelectionUnsupported => PasteErrorView::PrimarySelectionUnsupported,
            PasteError::Other(text) => PasteErrorView::Other(text@),
            PasteError::Pipe(text) => PasteErrorView::Pipe(text@),
        }
    }
}

/// What the session reported of a paste, as a mathematical value.
pub open spec fn outcome_view(outcome: PasteOutcome) -> Result<Seq<u8>, PasteErrorView> {
    match outcome {
        Ok(bytes) => Ok(bytes@),
        Err(e) => Err(e@),
    }
}

/// The error that a failed paste comes to. An empty selection and a missing
/// MIME type both mean that the content is not available, and never
/// anything else.
pub open spec fn paste_error_of(e: PasteErrorView) -> ErrorView {
    match e {
        PasteErrorView::ClipboardEmpty => ErrorView::ContentNotAvailable,
        PasteErrorView::NoMimeType => ErrorView::ContentNotAvailable,
        PasteErrorView::PrimarySelectionUnsupported => ErrorView::ClipboardNotSupported,
        PasteErrorView::Other(text) => ErrorView::Unknown { description: text },
        PasteErrorView::Pipe(text) => ErrorView::Unknown {
            description: "failed to read pipe"@ + ": "@ + text,
        },
    }
}

/// The payload of a paste, or the error that its failure comes to.
pub open spec fn payload_of(outcome: Result<Seq<u8>, PasteErrorView>) -> Result<Seq<u8>, ErrorView> {
    match outcome {
        Ok(bytes) => Ok(bytes),
        Err(e) => Err(paste_error_of(e)),
    }
}

/// The text that a paste gave: its payload, which must be UTF-8.
pub open spec fn plain_of(outcome: Result<Seq<u8>, PasteErrorView>) -> Result<Seq<char>, ErrorView> {
    match payload_of(outcome) {
        Ok(bytes) => text_of(bytes),
        Err(e) => Err(e),
    }
}

/// The image that a paste of raw pixels gave: its payload is a PNG stream,
/// which must decode.
pub open spec fn image_rgba_of(outcome: Result<Seq<u8>, PasteErrorView>) -> Result<
    ImageDataView,
    ErrorView,
> {
    match payload_of(outcome) {
        Ok(bytes) => match rgba_of(png_pixels(bytes)) {
            Ok(image) => Ok(ImageDataView::Rgba(image)),
            Err(e) => Err(e),
        },
        Err(e) => Err(e),
    }
}

/// The image that a paste of a PNG stream gave: its payload, as it is.
pub open spec fn image_png_of(outcome: Result<Seq<u8>, PasteErrorView>) -> Result<
    ImageDataView,
    ErrorView,
> {
    match payload_of(outcome) {
        Ok(bytes) => Ok(ImageDataView::Png(bytes)),
        Err(e) => Err(e),
    }
}

/// The image that a paste of an SVG document gave: its payload, which must
/// be UTF-8.
pub open spec fn image_svg_of(outcome: Result<Seq<u8>, PasteErrorView>) -> Result<
    ImageDataView,
    ErrorView,
> {
    match plain_of(outcome) {
        Ok(text) => Ok(ImageDataView::Svg(text)),
        Err(e) => Err(e),
    }
}

/// The paths that a paste of a URI list gave.
pub open spec fn file_urls_of(outcome: Result<Seq<u8>, PasteErrorView>) -> Result<
    Seq<Seq<char>>,
    ErrorView,
> {
    match payload_of(outcome) {
        Ok(bytes) => if vstd::utf8::valid_utf8(bytes) {
            paths_of(lines_of(bytes))
        } else {
            Err(ErrorView::ConversionFailure)
        },
        Err(e) => Err(e),
    }
}

/// What the read of one format comes to, given what the paste of its MIME
/// type reported. A value that is read always has the kind of the format.
pub open spec fn read_of(format: ClipboardFormatView, outcome: Result<Seq<u8>, PasteErrorView>) -> ItemView {
    match format {
        ClipboardFormatView::Text => match plain_of(outcome) {
            Ok(text) => Ok(ClipboardDataView::Text(text)),
            Err(e) => Err(e),
        },
        ClipboardFormatView::Html => match plain_of(outcome) {
            Ok(text) => Ok(ClipboardDataView::Html(text)),
            Err(e) => Err(e),
        },
        ClipboardFormatView::Rtf => match plain_of(outcome) {
            Ok(text) => Ok(ClipboardDataView::Rtf(text)),
            Err(e) => Err(e),
        },
        ClipboardFormatView::ImageRgba => match image_rgba_of(outcome) {
            Ok(image) => Ok(ClipboardDataView::Image(image)),
            Err(e) => Err(e),
        },
        ClipboardFormatView::ImagePng => match image_png_of(outcome) {
            Ok(image) => Ok(ClipboardDataView::Image(image)),
            Err(e) => Err(e),
        },
        ClipboardFormatView::ImageSvg => match image_svg_of(outcome) {
            Ok(image) => Ok(ClipboardDataView::Image(image)),
            Err(e) => Err(e),
        },
        ClipboardFormatView::FileUrl => match file_urls_of(outcome) {
            Ok(paths) => Ok(ClipboardDataView::FileUrl(paths)),
            Err(e) => Err(e),
        },
        ClipboardFormatView::Special(name) => match payload_of(outcome) {
            Ok(bytes) => Ok(ClipboardDataView::Special(name, bytes)),
            Err(e) => Err(e),
        },
    }
}

/// What a result that carries an image stands for.
pub open spec fn image_result(r: Result<ImageData, Error>) -> Result<ImageDataView, ErrorView> {
    match r {
        Ok(image) => Ok(image@),
        Err(e) => Err(e@),
    }
}

/// The error that a failed paste comes to.
pub fn paste_failure(e: PasteError) -> (error: Error)
    ensures
        error@ == paste_error_of(e@),
{
    match e {
        PasteError::ClipboardEmpty => Error::ContentNotAvailable,
        PasteError::NoMimeType => Error::ContentNotAvailable,
        PasteError::PrimarySelectionUnsupported => Error::ClipboardNotSupported,
        PasteError::Other(text) => Error::Unknown { description: text },
        PasteError::Pipe(text) => into_unknown("failed to read pipe", text.as_str()),
    }
}

/// The payload of a paste, or the error that its failure comes to.
pub fn payload(outcome: PasteOutcome) -> (r: Result<Vec<u8>, Error>)
    ensures
        crate::codec::bytes_result(r) == payload_of(outcome_view(outcome)),
{
    match outcome {
        Ok(bytes) => Ok(bytes),
        Err(e) => Err(paste_failure(e)),
    }
}

impl Clipboard {
    /// What to paste for a format from a slot: the MIME type the format
    /// travels under, from the selection the slot stands for. A slot that
    /// the compositor does not have gives [`Error::ClipboardNotSupported`].
    pub fn paste_request(&self, format: &ClipboardFormat<'_>, selection: LinuxClipboardKind) -> (r:
        Result<PasteRequest, Error>)
        ensures
            match r {
                Ok(request) => {
                    &&& clipboard_type_of(selection) == Ok::<ClipboardType, ErrorView>(
                        request.clipboard,
                    )
                    &&& request.mime_type@ == mime_of(format@)
                },
                Err(e) => clipboard_type_of(selection) == Err::<ClipboardType, ErrorView>(e@),
            },
    {
        let clipboard = match selection.try_into() {
            Ok(clipboard) => clipboard,
            Err(e) => {
                return Err(e);
            },
        };
        let mime_type = match format {
            ClipboardFormat::Text => MimeType::Text,
            ClipboardFormat::Html => specific(MIME_HTML),
            ClipboardFormat::Rtf => specific(MIME_RTF),
            ClipboardFormat::ImageRgba => specific(MIME_PNG),
            ClipboardFormat::ImagePng => specific(MIME_PNG),
            ClipboardFormat::ImageSvg => specific(MIME_SVG),
            ClipboardFormat::FileUrl => specific(MIME_URL_LIST),
            ClipboardFormat::Special(name) => specific(name),
        };
        Ok(PasteRequest { clipboard, mime_type })
    }

    /// The text that a paste gave. A payload that is not UTF-8 gives
    /// [`Error::ConversionFailure`].
    pub fn get_plain(&self, outcome: PasteOutcome) -> (r: Result<String, Error>)
        ensures
            crate::text::text_result(r) == plain_of(outcome_view(outcome)),
    {
        match payload(outcome) {
            Ok(bytes) => decode_text(bytes),
            Err(e) => Err(e),
        }
    }

    /// The text that a paste of the plain text types gave.
    pub fn get_text(&self, outcome: PasteOutcome) -> (r: Result<String, Error>)
        ensures
            crate::text::text_result(r) == plain_of(outcome_view(outcome)),
    {
        self.get_plain(outcome)
    }

    /// The rich text that a paste of its type gave.
    pub fn get_rtf(&self, outcome: PasteOutcome) -> (r: Result<String, Error>)
        ensures
            crate::text::text_result(r) == plain_of(outcome_view(outcome)),
    {
        self.get_plain(outcome)
    }

    /// The HTML that a paste of its type gave.
    pub fn get_html(&self, outcome: PasteOutcome) -> (r: Result<String, Error>)
        ensures
            crate::text::text_result(r) == plain_of(outcome_view(outcome)),
    {
        self.get_plain(outcome)
    }

    /// The raw pixels that a paste of the PNG type gave.
    pub fn get_image_rgba(&self, outcome: PasteOutcome) -> (r: Result<ImageData, Error>)
        ensures
            image_result(r) == image_rgba_of(outcome_view(outcome)),
    {
        match payload(outcome) {
            Ok(bytes) => match decode_from_png(bytes) {
                Ok(image) => Ok(ImageData::Rgba(image)),
                Err(e) => Err(e),
            },
            Err(e) => Err(e),
        }
    }

    /// The PNG stream that a paste of the PNG type gave.
    pub fn get_image_png(&self, outcome: PasteOutcome) -> (r: Result<ImageData, Error>)
        ensures
            image_result(r) == image_png_of(outcome_view(outcome)),
    {
        match payload(outcome) {
            Ok(bytes) => Ok(ImageData::png(bytes)),
            Err(e) => Err(e),
        }
    }

    /// The SVG document that a paste of the SVG type gave.
    pub fn get_image_svg(&self, outcome: PasteOutcome) -> (r: Result<ImageData, Error>)
        ensures
            image_result(r) == image_svg_of(outcome_view(outcome)),
    {
        match self.get_plain(outcome) {
            Ok(text) => Ok(ImageData::Svg(text)),
            Err(e) => Err(e),
        }
    }

    /// The bytes that a paste of a special format gave.
    pub fn get_special(&self, outcome: PasteOutcome) -> (r: Result<Vec<u8>, Error>)
        ensures
            crate::codec::bytes_result(r) == payload_of(outcome_view(outcome)),
    {
        payload(outcome)
    }

    /// The paths that a paste of the URI list type gave.
    pub fn get_url_list(&self, outcome: PasteOutcome) -> (r: Result<Vec<String>, Error>)
        ensures
            crate::url::list_result(r) == file_urls_of(outcome_view(outcome)),
    {
        match payload(outcome) {
            Ok(bytes) => parse_plain_uri_list(bytes),
            Err(e) => Err(e),
        }
    }

    /// What the read of one format comes to, given what the paste asked for
    /// by [`Clipboard::paste_request`] reported.
    pub fn get_format(&self, format: &ClipboardFormat<'_>, outcome: PasteOutcome) -> (r: Result<
        ClipboardData,
        Error,
    >)
        ensures
            item_view(r) == read_of(format@, outcome_view(outcome)),
    {
        match format {
            ClipboardFormat::Text => match self.get_plain(outcome) {
                Ok(text) => Ok(ClipboardData::Text(text)),
                Err(e) => Err(e),
            },
            ClipboardFormat::Html => match self.get_plain(outcome) {
                Ok(text) => Ok(ClipboardData::Html(text)),
                Err(e) => Err(e),
            },
            ClipboardFormat::Rtf => match self.get_plain(outcome) {
                Ok(text) => Ok(ClipboardData::Rtf(text)),
                Err(e) => Err(e),
            },
            ClipboardFormat::ImageRgba => match self.get_image_rgba(outcome) {
                Ok(image) => Ok(ClipboardData::Image(image)),
                Err(e) => Err(e),
            },
            ClipboardFormat::ImagePng => match self.get_image_png(outcome) {
                Ok(image) => Ok(ClipboardData::Image(image)),
                Err(e) => Err(e),
            },
            ClipboardFormat::ImageSvg => match self.get_image_svg(outcome) {
                Ok(image) => Ok(ClipboardData::Image(image)),
                Err(e) => Err(e),
            },
            ClipboardFormat::FileUrl => match self.get_url_list(outcome) {
                Ok(paths) => Ok(ClipboardData::FileUrl(paths)),
                Err(e) => Err(e),
            },
            ClipboardFormat::Special(name) => match self.get_special(outcome) {
                Ok(bytes) => Ok(ClipboardData::Special((String::from_str(name), bytes))),
                Err(e) => Err(e),
            },
        }
    }
}

/// The source that a value is offered as: the bytes that stand for it, under
/// the MIME type of its kind. Raw pixels are offered as the PNG stream that
/// encodes them. Nothing is offered for `Absent`.
pub open spec fn source_of(data: ClipboardDataView) -> Result<MimeSourceView, ErrorView> {
    match data {
        ClipboardDataView::Text(text) => Ok(
            MimeSourceView { source: encode_utf8(text), mime_type: MimeTypeView::Text },
        ),
        ClipboardDataView::Rtf(text) => Ok(
            MimeSourceView {
                source: encode_utf8(text),
                mime_type: MimeTypeView::Specific(MIME_RTF@),
            },
        ),
        ClipboardDataView::Html(text) => Ok(
            MimeSourceView {
                source: encode_utf8(text),
                mime_type: MimeTypeView::Specific(MIME_HTML@),
            },
        ),
        ClipboardDataView::Image(ImageDataView::Rgba(image)) => match png_of(image) {
            Ok(stream) => Ok(
                MimeSourceView { source: stream, mime_type: MimeTypeView::Specific(MIME_PNG@) },
            ),
            Err(e) => Err(e),
        },
        ClipboardDataView::Image(ImageDataView::Png(stream)) => Ok(
            MimeSourceView { source: stream, mime_type: MimeTypeView::Specific(MIME_PNG@) },
        ),
        ClipboardDataView::Image(ImageDataView::Svg(text)) => Ok(
            MimeSourceView {
                source: encode_utf8(text),
                mime_type: MimeTypeView::Specific(MIME_SVG@),
            },
        ),
        ClipboardDataView::FileUrl(paths) => Ok(
            MimeSourceView {
                source: uri_list_of(EncodeSet::Path, paths),
                mime_type: MimeTypeView::Specific(MIME_URL_LIST@),
            },
        ),
        ClipboardDataView::Special(name, bytes) => Ok(
            MimeSourceView { source: bytes, mime_type: MimeTypeView::Specific(name) },
        ),
        ClipboardDataView::Absent => Err(ErrorView::ConversionFailure),
    }
}

/// What a result that carries a source stands for.
pub open spec fn source_result(r: Result<MimeSource, Error>) -> Result<MimeSourceView, ErrorView> {
    match r {
        Ok(source) => Ok(source@),
        Err(e) => Err(e@),
    }
}

/// The values of a list of sources.
pub open spec fn source_views(list: Seq<MimeSource>) -> Seq<MimeSourceView> {
    Seq::new(list.len(), |i: int| list[i]@)
}

/// The mathematical value of a [`CopyRequest`].
pub struct CopyRequestView {
    pub foreground: bool,
    pub clipboard: ClipboardType,
    pub sources: Seq<MimeSourceView>,
}

impl View for CopyRequest {
    type V = CopyRequestView;

    open spec fn view(&self) -> CopyRequestView {
        CopyRequestView {
            foreground: self.foreground,
            clipboard: self.clipboard,
            sources: source_views(self.sources@),
        }
    }
}

/// What a result that carries an offer stands for.
pub open spec fn request_result(r: Result<CopyRequest, Error>) -> Result<CopyRequestView, ErrorView> {
    match r {
        Ok(request) => Ok(request@),
        Err(e) => Err(e@),
    }
}

/// The offer of some sources on a slot. The call serves it in the
/// foreground exactly when it is to wait until the selection is taken.
pub open spec fn offer_of(
    sources: Seq<MimeSourceView>,
    selection: LinuxClipboardKind,
    wait: WaitConfig,
) -> Result<CopyRequestView, ErrorView> {
    match clipboard_type_of(selection) {
        Ok(clipboard) => Ok(
            CopyRequestView { foreground: wait == WaitConfig::Forever, clipboard, sources },
        ),
        Err(e) => Err(e),
    }
}

impl Clipboard {
    /// Text, offered under the plain text types.
    pub fn text_to_mime_source(text: &str) -> (source: MimeSource)
        ensures
            source_of(ClipboardDataView::Text(text@)) == Ok::<MimeSourceView, ErrorView>(source@),
    {
        MimeSource { source: text.as_bytes_vec(), mime_type: MimeType::Text }
    }

    /// Rich text, offered under its MIME type.
    pub fn rtf_to_mime_source(rtf: &str) -> (source: MimeSource)
        ensures
            source_of(ClipboardDataView::Rtf(rtf@)) == Ok::<MimeSourceView, ErrorView>(source@),
    {
        MimeSource { source: rtf.as_bytes_vec(), mime_type: specific(MIME_RTF) }
    }

    /// HTML, offered under its MIME type.
    pub fn html_to_mime_source(html: &str) -> (source: MimeSource)
        ensures
            source_of(ClipboardDataView::Html(html@)) == Ok::<MimeSourceView, ErrorView>(source@),
    {
        MimeSource { source: html.as_bytes_vec(), mime_type: specific(MIME_HTML) }
    }

    /// File paths, offered as a URI list.
    pub fn url_list_to_mime_source(urls: &[String]) -> (source: MimeSource)
        ensures
            source_of(ClipboardDataView::FileUrl(texts(urls@))) == Ok::<MimeSourceView, ErrorView>(
                source@,
            ),
    {
        let list = encode_uri_list(urls);
        MimeSource { source: list.as_str().as_bytes_vec(), mime_type: specific(MIME_URL_LIST) }
    }

    /// A PNG stream, offered under its MIME type.
    pub fn png_to_mime_source(png: Vec<u8>) -> (source: MimeSource)
        ensures
            source_of(ClipboardDataView::Image(ImageDataView::Png(png@))) == Ok::<
                MimeSourceView,
                ErrorView,
            >(source@),
    {
        MimeSource { source: png, mime_type: specific(MIME_PNG) }
    }

    /// An SVG document, offered under its MIME type.
    pub fn svg_to_mime_source(svg: &str) -> (source: MimeSource)
        ensures
            source_of(ClipboardDataView::Image(ImageDataView::Svg(svg@))) == Ok::<
                MimeSourceView,
                ErrorView,
            >(source@),
    {
        MimeSource { source: svg.as_bytes_vec(), mime_type: specific(MIME_SVG) }
    }

    /// Bytes, offered under the name of their format.
    pub fn special_to_mime_source(format_name: &str, data: &[u8]) -> (source: MimeSource)
        ensures
            source_of(ClipboardDataView::Special(format_name@, data@)) == Ok::<
                MimeSourceView,
                ErrorView,
            >(source@),
    {
        MimeSource { source: slice_to_vec(data), mime_type: specific(format_name) }
    }

    /// Raw pixels, offered as the PNG stream that encodes them. An image
    /// that does not encode gives [`Error::ConversionFailure`].
    pub fn rgba_to_mime_source(image: &ImageRgba) -> (r: Result<MimeSource, Error>)
        ensures
            source_result(r) == source_of(ClipboardDataView::Image(ImageDataView::Rgba(image@))),
    {
        match encode_as_png(image) {
            Ok(png) => Ok(MimeSource { source: png, mime_type: specific(MIME_PNG) }),
            Err(e) => Err(e),
        }
    }

    /// An image, offered in the form it has.
    pub fn image_to_mime_source(image: &ImageData) -> (r: Result<MimeSource, Error>)
        ensures
            source_result(r) == source_of(ClipboardDataView::Image(image@)),
    {
        match image {
            ImageData::Rgba(image) => Self::rgba_to_mime_source(image),
            ImageData::Png(png) => Ok(Self::png_to_mime_source(png.clone())),
            ImageData::Svg(svg) => Ok(Self::svg_to_mime_source(svg.as_str())),
        }
    }

    /// The source that a value is offered as.
    pub fn to_mime_source(data: &ClipboardData) -> (r: Result<MimeSource, Error>)
        ensures
            source_result(r) == source_of(data@),
    {
        match data {
            ClipboardData::Text(text) => Ok(Self::text_to_mime_source(text.as_str())),
            ClipboardData::Rtf(rtf) => Ok(Self::rtf_to_mime_source(rtf.as_str())),
            ClipboardData::Html(html) => Ok(Self::html_to_mime_source(html.as_str())),
            ClipboardData::Image(image) => Self::image_to_mime_source(image),
            ClipboardData::FileUrl(urls) => Ok(Self::url_list_to_mime_source(urls.as_slice())),
            ClipboardData::Special(pair) => Ok(
                Self::special_to_mime_source(pair.0.as_str(), pair.1.as_slice()),
            ),
            ClipboardData::Absent => Err(Error::ConversionFailure),
        }
    }

    /// The offer of several sources on a slot, as the representations of one
    /// clipboard entry. A slot that the compositor does not have gives
    /// [`Error::ClipboardNotSupported`].
    pub fn set_multi_source(
        &self,
        sources: Vec<MimeSource>,
        selection: LinuxClipboardKind,
        wait: WaitConfig,
    ) -> (r: Result<CopyRequest, Error>)
        ensures
            request_result(r) == offer_of(source_views(sources@), selection, wait),
    {
        match selection.try_into() {
            Ok(clipboard) => Ok(
                CopyRequest { foreground: matches!(wait, WaitConfig::Forever), clipboard, sources },
            ),
            Err(e) => Err(e),
        }
    }

    /// The offer of one source on a slot.
    pub fn set_source(&self, source: MimeSource, selection: LinuxClipboardKind, wait: WaitConfig) -> (r:
        Result<CopyRequest, Error>)
        ensures
            request_result(r) == offer_of(seq![source@], selection, wait),
    {
        let mut sources: Vec<MimeSource> = Vec::new();
        sources.push(source);
        assert(source_views(sources@) =~= seq![source@]);
        self.set_multi_source(sources, selection, wait)
    }
}

/// Whether every value of a list can be offered.
pub open spec fn all_offered(data: Seq<ClipboardDataView>) -> bool {
    forall|i: int| 0 <= i < data.len() ==> source_of(#[trigger] data[i]) is Ok
}

/// The sources that a list of values is offered as, in order. One value
/// that cannot be offered refuses the list.
pub open spec fn sources_of(data: Seq<ClipboardDataView>) -> Result<Seq<MimeSourceView>, ErrorView> {
    if all_offered(data) {
        Ok(Seq::new(data.len(), |i: int| source_of(data[i])->Ok_0))
    } else {
        Err(ErrorView::ConversionFailure)
    }
}

/// The offer that a write of paired formats and values comes to. Each value
/// must stand for its format, and each must be offerable; then all of them
/// are offered together, on the selection that the slot stands for.
pub open spec fn formats_offer(
    items: Seq<(ClipboardFormat<'_>, ClipboardData)>,
    selection: LinuxClipboardKind,
    wait: WaitConfig,
) -> Result<CopyRequestView, ErrorView> {
    if !all_match(items) {
        Err(ErrorView::ConversionFailure)
    } else {
        match sources_of(pair_data(items)) {
            Ok(sources) => offer_of(sources, selection, wait),
            Err(e) => Err(e),
        }
    }
}

/// Whether none of the paths of a value spells an escape in its own bytes.
pub open spec fn spells_no_escape(data: ClipboardDataView) -> bool {
    data matches ClipboardDataView::FileUrl(paths) ==> forall|k: int|
        0 <= k < paths.len() ==> !crate::url::spells_escape(#[trigger] encode_utf8(paths[k]))
}

/// A value that is written in the form of its format is offered under the
/// MIME type that the format is pasted under; and where the session gives
/// back the bytes that were offered, the read of the format gives back the
/// value. Raw pixels, which travel as a PNG stream, come back as the same
/// pixels. A list of paths comes back if none of them spells an escape.
pub proof fn lemma_write_then_read(format: ClipboardFormatView, data: ClipboardDataView)
    requires
        same_form(format, data),
        source_of(data) is Ok,
        spells_no_escape(data),
    ensures
        tag_matches(format, data),
        source_of(data)->Ok_0.mime_type == mime_of(format),
        read_of(format, Ok(source_of(data)->Ok_0.source)) == Ok::<ClipboardDataView, ErrorView>(
            data,
        ),
{
    match data {
        ClipboardDataView::Text(text) => {
            encode_utf8_valid_utf8(text);
            encode_utf8_decode_utf8(text);
        },
        ClipboardDataView::Html(text) => {
            encode_utf8_valid_utf8(text);
            encode_utf8_decode_utf8(text);
        },
        ClipboardDataView::Rtf(text) => {
            encode_utf8_valid_utf8(text);
            encode_utf8_decode_utf8(text);
        },
        ClipboardDataView::Image(ImageDataView::Svg(text)) => {
            encode_utf8_valid_utf8(text);
            encode_utf8_decode_utf8(text);
        },
        ClipboardDataView::FileUrl(paths) => {
            let list = uri_list_of(EncodeSet::Path, paths);
            crate::url::lemma_uri_list_ascii(EncodeSet::Path, paths);
            crate::url::lemma_ascii_text_bytes(list);
            encode_utf8_valid_utf8(crate::url::ascii_text(list));
            crate::url::lemma_list_round_trip(EncodeSet::Path, paths);
        },
        ClipboardDataView::Image(ImageDataView::Rgba(image)) => {
            crate::codec::lemma_png_round_trip(image);
        },
        _ => {},
    }
}

/// Two slots that the compositor has both stand for two selections, so that
/// what is asked of one is never asked of the other.
pub proof fn lemma_slots_apart(a: LinuxClipboardKind, b: LinuxClipboardKind)
    requires
        a != b,
        clipboard_type_of(a) is Ok,
        clipboard_type_of(b) is Ok,
    ensures
        clipboard_type_of(a) != clipboard_type_of(b),
{
}

/// The mathematical value of a [`CopyError`].
pub enum CopyErrorView {
    PrimarySelectionUnsupported,
    Other(Seq<char>),
}

impl View for CopyError {
    type V = CopyErrorView;

    open spec fn view(&self) -> CopyErrorView {
        match self {
            CopyError::PrimarySelectionUnsupported => CopyErrorView::PrimarySelectionUnsupported,
            CopyError::Other(text) => CopyErrorView::Other(text@),
        }
    }
}

/// The error that a failed offer comes to.
pub open spec fn copy_error_of(e: CopyErrorView) -> ErrorView {
    match e {
        CopyErrorView::PrimarySelectionUnsupported => ErrorView::ClipboardNotSupported,
        CopyErrorView::Other(text) => ErrorView::Unknown {
            description: "failed to copy to the clipboard"@ + ": "@ + text,
        },
    }
}

/// The generic image read tries the SVG document first and the PNG stream
/// second.
pub open spec fn image_order() -> Seq<ClipboardFormatView> {
    seq![ClipboardFormatView::ImageSvg, ClipboardFormatView::ImagePng]
}

impl Clipboard {
    /// Opens the backend, given what the check for a primary selection
    /// reported. The check must have reached the compositor; whether there
    /// is a primary selection does not matter here.
    pub fn new(probe: Result<bool, String>) -> (r: Result<Clipboard, Error>)
        ensures
            probe is Ok <==> r is Ok,
            probe matches Err(text) ==> r matches Err(e) && e@ == (ErrorView::Unknown {
                description: "failed to check is_primary_selection_supported"@ + ": "@ + text@,
            }),
    {
        match probe {
            Ok(_) => Ok(Clipboard {  }),
            Err(text) => Err(
                into_unknown("failed to check is_primary_selection_supported", text.as_str()),
            ),
        }
    }

    /// The formats that a generic image read tries, in order. Each attempt
    /// goes to [`crate::dispatch::image_step`], which says whether the next
    /// is made.
    pub fn image_formats(&self) -> (order: [ClipboardFormat<'static>; 2])
        ensures
            crate::dispatch::format_views(order@) == image_order(),
    {
        let order = [ClipboardFormat::ImageSvg, ClipboardFormat::ImagePng];
        assert(crate::dispatch::format_views(order@) =~= image_order());
        order
    }

    /// The offer that puts text on a slot.
    pub fn set_text(&self, text: &str, selection: LinuxClipboardKind, wait: WaitConfig) -> (r: Result<
        CopyRequest,
        Error,
    >)
        ensures
            request_result(r) == offer_of(
                seq![source_of(ClipboardDataView::Text(text@))->Ok_0],
                selection,
                wait,
            ),
    {
        self.set_source(Self::text_to_mime_source(text), selection, wait)
    }

    /// The offer that puts rich text on a slot.
    pub fn set_rtf(&self, rtf: &str, selection: LinuxClipboardKind, wait: WaitConfig) -> (r: Result<
        CopyRequest,
        Error,
    >)
        ensures
            request_result(r) == offer_of(
                seq![source_of(ClipboardDataView::Rtf(rtf@))->Ok_0],
                selection,
                wait,
            ),
    {
        self.set_source(Self::rtf_to_mime_source(rtf), selection, wait)
    }

    /// The offer that puts HTML on a slot. Where there is an alternative
    /// text, it is offered too, before the HTML.
    pub fn set_html(
        &self,
        html: &str,
        alt: Option<&str>,
        selection: LinuxClipboardKind,
        wait: WaitConfig,
    ) -> (r: Result<CopyRequest, Error>)
        ensures
            request_result(r) == offer_of(
                match alt {
                    Some(alt_text) => seq![
                        source_of(ClipboardDataView::Text(alt_text@))->Ok_0,
                        source_of(ClipboardDataView::Html(html@))->Ok_0,
                    ],
                    None => seq![source_of(ClipboardDataView::Html(html@))->Ok_0],
                },
                selection,
                wait,
            ),
    {
        let html_source = Self::html_to_mime_source(html);
        match alt {
            Some(alt_text) => {
                let text_source = Self::text_to_mime_source(alt_text);
                let mut sources: Vec<MimeSource> = Vec::new();
                sources.push(text_source);
                sources.push(html_source);
                assert(source_views(sources@) =~= seq![text_source@, html_source@]);
                self.set_multi_source(sources, selection, wait)
            },
            None => self.set_source(html_source, selection, wait),
        }
    }

    /// The offer that puts an image on a slot, in the form it has. Raw
    /// pixels go as the PNG stream that encodes them.
    pub fn set_image(&self, image: &ImageData, selection: LinuxClipboardKind, wait: WaitConfig) -> (r:
        Result<CopyRequest, Error>)
        ensures
            request_result(r) == (match source_of(ClipboardDataView::Image(image@)) {
                Ok(source) => offer_of(seq![source], selection, wait),
                Err(e) => Err(e),
            }),
    {
        match Self::image_to_mime_source(image) {
            Ok(source) => self.set_source(source, selection, wait),
            Err(e) => Err(e),
        }
    }

    /// The offer that puts raw pixels on a slot: one source of the PNG type,
    /// whose bytes are a PNG stream that decodes to the image. The pixel
    /// buffer itself is never offered.
    pub fn set_image_rgba(&self, image: &ImageRgba, selection: LinuxClipboardKind, wait: WaitConfig) -> (r:
        Result<CopyRequest, Error>)
        ensures
            request_result(r) == (match source_of(
                ClipboardDataView::Image(ImageDataView::Rgba(image@)),
            ) {
                Ok(source) => offer_of(seq![source], selection, wait),
                Err(e) => Err(e),
            }),
            r matches Ok(request) ==> {
                &&& request@.sources.len() == 1
                &&& request@.sources[0].mime_type == MimeTypeView::Specific(MIME_PNG@)
                &&& decodes_to(request@.sources[0].source, image@)
            },
    {
        match Self::rgba_to_mime_source(image) {
            Ok(source) => self.set_source(source, selection, wait),
            Err(e) => Err(e),
        }
    }

    /// The offer that puts a PNG stream on a slot.
    pub fn set_image_png(&self, png: Vec<u8>, selection: LinuxClipboardKind, wait: WaitConfig) -> (r:
        Result<CopyRequest, Error>)
        ensures
            request_result(r) == offer_of(
                seq![source_of(ClipboardDataView::Image(ImageDataView::Png(png@)))->Ok_0],
                selection,
                wait,
            ),
    {
        self.set_source(Self::png_to_mime_source(png), selection, wait)
    }

    /// The offer that puts an SVG document on a slot.
    pub fn set_image_svg(&self, svg: &str, selection: LinuxClipboardKind, wait: WaitConfig) -> (r:
        Result<CopyRequest, Error>)
        ensures
            request_result(r) == offer_of(
                seq![source_of(ClipboardDataView::Image(ImageDataView::Svg(svg@)))->Ok_0],
                selection,
                wait,
            ),
    {
        self.set_source(Self::svg_to_mime_source(svg), selection, wait)
    }

    /// The selection that a clear empties: the one the slot stands for.
    /// Nothing is installed in place of what it held.
    pub fn clear(&self, selection: LinuxClipboardKind) -> (r: Result<ClipboardType, Error>)
        ensures
            match r {
                Ok(clipboard) => clipboard_type_of(selection) == Ok::<ClipboardType, ErrorView>(
                    clipboard,
                ),
                Err(e) => clipboard_type_of(selection) == Err::<ClipboardType, ErrorView>(e@),
            },
    {
        selection.try_into()
    }

    /// The offer that puts the bytes of a special format on a slot.
    pub fn set_special(
        &self,
        format_name: &str,
        data: &[u8],
        selection: LinuxClipboardKind,
        wait: WaitConfig,
    ) -> (r: Result<CopyRequest, Error>)
        ensures
            request_result(r) == offer_of(
                seq![source_of(ClipboardDataView::Special(format_name@, data@))->Ok_0],
                selection,
                wait,
            ),
    {
        self.set_source(Self::special_to_mime_source(format_name, data), selection, wait)
    }

    /// The offer that a write of paired formats and values comes to. A value
    /// that does not stand for its format, and an image that does not
    /// encode, give [`Error::ConversionFailure`] before anything is offered;
    /// a slot that the compositor does not have gives
    /// [`Error::ClipboardNotSupported`].
    pub fn set_formats(
        &self,
        items: &[(ClipboardFormat<'_>, ClipboardData)],
        selection: LinuxClipboardKind,
        wait: WaitConfig,
    ) -> (r: Result<CopyRequest, Error>)
        ensures
            request_result(r) == formats_offer(items@, selection, wait),
    {
        match check_pairs(items) {
            Ok(_) => {},
            Err(e) => {
                return Err(e);
            },
        }
        let ghost data = pair_data(items@);
        let mut sources: Vec<MimeSource> = Vec::new();
        let mut i: usize = 0;
        while i < items.len()
            invariant
                i <= items.len(),
                data == pair_data(items@),
                sources@.len() == i,
                forall|k: int|
                    0 <= k < i ==> source_of(#[trigger] data[k]) == Ok::<MimeSourceView, ErrorView>(
                        sources@[k]@,
                    ),
            decreases items.len() - i,
        {
            match Self::to_mime_source(&items[i].1) {
                Ok(source) => {
                    sources.push(source);
                },
                Err(e) => {
                    assert(source_of(data[i as int]) is Err);
                    return Err(e);
                },
            }
            i += 1;
        }
        assert(source_views(sources@) =~= Seq::new(data.len(), |i: int| source_of(data[i])->Ok_0));
        self.set_multi_source(sources, selection, wait)
    }

    /// What an offer came to, given what the session reported of it.
    pub fn finish_copy(&self, outcome: Result<(), CopyError>) -> (r: Result<(), Error>)
        ensures
            outcome is Ok <==> r is Ok,
            outcome matches Err(failure) ==> r matches Err(e) && e@ == copy_error_of(failure@),
    {
        match outcome {
            Ok(_) => Ok(()),
            Err(CopyError::PrimarySelectionUnsupported) => Err(Error::ClipboardNotSupported),
            Err(CopyError::Other(text)) => Err(
                into_unknown("failed to copy to the clipboard", text.as_str()),
            ),
        }
    }
}

} // verus!
