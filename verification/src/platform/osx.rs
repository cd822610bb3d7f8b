//! The macOS backend.
//!
//! The pasteboard holds items, and each item holds data under the names of
//! types. This module says under which type a format is looked for and
//! written, reads what the pasteboard gave, and lays out what a write puts
//! on it. It never talks to the pasteboard itself.

use vstd::prelude::*;
use vstd::string::StringExecFns;
use vstd::string::StringSliceAdditionalSpecFns;
use vstd::utf8::encode_utf8;

use crate::codec::decode_from_tiff;
use crate::codec::rgba_of;
use crate::codec::tiff_pixels;
use crate::common::err;
use crate::common::texts;
use crate::common::ClipboardData;
use crate::common::ClipboardDataView;
use crate::common::ClipboardFormat;
use crate::common::ClipboardFormatView;
use crate::common::Error;
use crate::common::ErrorView;
use crate::common::ImageData;
use crate::common::ImageDataView;
use crate::common::ImageRgba;
use crate::common::ImageRgbaView;
use crate::dispatch::all_match;
use crate::dispatch::check_pairs;
use crate::dispatch::format_views;
use crate::dispatch::item_view;
use crate::dispatch::pair_data;
use crate::dispatch::same_form;
use crate::dispatch::ItemView;
use crate::text::begins_with;
use crate::text::bytes_start_with;
use crate::url::ascii_text;
use crate::url::encode_path;
use crate::url::uri_of;
use crate::url::EncodeSet;

verus! {

/// The type that SVG documents go under, which the system has no name for.
pub const NS_PASTEBOARD_TYPE_SVG: &'static str = "public.svg-image";

/// The type of data on the pasteboard: one of those the system names, or one
/// that goes under a name of the caller's.
#[derive(Debug, PartialEq, Eq)]
pub enum PasteboardType {
    /// Plain text.
    String,
    /// Rich text.
    Rtf,
    /// HTML.
    Html,
    /// A PNG stream.
    Png,
    /// A TIFF stream.
    Tiff,
    /// A file URL.
    FileUrl,
    /// The type of this name.
    Named(String),
}

/// The mathematical value of a [`PasteboardType`].
pub enum PasteboardTypeView {
    String,
    Rtf,
    Html,
    Png,
    Tiff,
    FileUrl,
    Named(Seq<char>),
}

impl View for PasteboardType {
    type V = PasteboardTypeView;

    open spec fn view(&self) -> PasteboardTypeView {
        match self {
            PasteboardType::String => PasteboardTypeView::String,
            PasteboardType::Rtf => PasteboardTypeView::Rtf,
            PasteboardType::Html => PasteboardTypeView::Html,
            PasteboardType::Png => PasteboardTypeView::Png,
            PasteboardType::Tiff => PasteboardTypeView::Tiff,
            PasteboardType::FileUrl => PasteboardTypeView::FileUrl,
            PasteboardType::Named(name) => PasteboardTypeView::Named(name@),
        }
    }
}

impl Clone for PasteboardType {
    fn clone(&self) -> (pasteboard_type: PasteboardType)
        ensures
            pasteboard_type@ == self@,
    {
        match self {
            PasteboardType::String => PasteboardType::String,
            PasteboardType::Rtf => PasteboardType::Rtf,
            PasteboardType::Html => PasteboardType::Html,
            PasteboardType::Png => PasteboardType::Png,
            PasteboardType::Tiff => PasteboardType::Tiff,
            PasteboardType::FileUrl => PasteboardType::FileUrl,
            PasteboardType::Named(name) => PasteboardType::Named(name.clone()),
        }
    }
}

/// The type that a format is looked for under. Raw pixels are looked for as
/// a TIFF stream.
pub open spec fn type_of(format: ClipboardFormatView) -> PasteboardTypeView {
    match format {
        ClipboardFormatView::Text => PasteboardTypeView::String,
        ClipboardFormatView::Html => PasteboardTypeView::Html,
        ClipboardFormatView::Rtf => PasteboardTypeView::Rtf,
        ClipboardFormatView::ImageRgba => PasteboardTypeView::Tiff,
        ClipboardFormatView::ImagePng => PasteboardTypeView::Png,
        ClipboardFormatView::ImageSvg => PasteboardTypeView::Named(NS_PASTEBOARD_TYPE_SVG@),
        ClipboardFormatView::FileUrl => PasteboardTypeView::FileUrl,
        ClipboardFormatView::Special(name) => PasteboardTypeView::Named(name),
    }
}

/// How the pasteboard is asked for a type.
#[derive(Debug, Clone, Copy, PartialEq, Eq, Structural)]
pub enum Lookup {
    /// Each item is asked for its string of the type.
    ItemStrings,
    /// Each item is asked for its data of the type.
    ItemData,
    /// The pasteboard as a whole is asked for its string of the type.
    String,
    /// The pasteboard as a whole is asked for its data of the type.
    Data,
    /// Each item is asked for its string of the type, and the string is
    /// read as a URL.
    ItemUrls,
}

/// How the pasteboard is asked for a format.
pub open spec fn lookup_of(format: ClipboardFormatView) -> Lookup {
    match format {
        ClipboardFormatView::Text => Lookup::ItemStrings,
        ClipboardFormatView::Html => Lookup::ItemStrings,
        ClipboardFormatView::Rtf => Lookup::ItemStrings,
        ClipboardFormatView::ImageRgba => Lookup::Data,
        ClipboardFormatView::ImagePng => Lookup::Data,
        ClipboardFormatView::ImageSvg => Lookup::String,
        ClipboardFormatView::FileUrl => Lookup::ItemUrls,
        ClipboardFormatView::Special(_) => Lookup::ItemData,
    }
}

/// What the pasteboard is asked for.
#[derive(Debug, PartialEq, Eq)]
pub struct ReadRequest {
    pub lookup: Lookup,
    pub pasteboard_type: PasteboardType,
}

/// What one item gave when its string was read as a URL.
#[derive(Debug, PartialEq, Eq)]
pub enum UrlEntry {
    /// The item has no string of the type.
    Missing,
    /// The item has one, and it is no URL.
    Malformed,
    /// The item has one; this is the path of the URL, where it has a path.
    Url(Option<String>),
}

/// What the pasteboard gave for a request. Where the items are listed, the
/// list is missing if the pasteboard could not list them.
#[derive(Debug, PartialEq, Eq)]
pub enum PasteboardRead {
    /// For each item, in order, its string of the type.
    ItemStrings(Option<Vec<Option<String>>>),
    /// For each item, in order, its data of the type.
    ItemData(Option<Vec<Option<Vec<u8>>>>),
    /// The pasteboard's string of the type.
    String(Option<String>),
    /// The pasteboard's data of the type.
    Data(Option<Vec<u8>>),
    /// For each item, in order, its string of the type read as a URL.
    ItemUrls(Option<Vec<UrlEntry>>),
}

/// The pasteboard, once it is known to be there.
#[derive(Debug, Clone, Copy, PartialEq, Eq, Structural)]
pub struct Clipboard {}

/// Reads from the pasteboard.
#[derive(Debug, Clone, Copy, PartialEq, Eq, Structural)]
pub struct Get {}

/// Writes to the pasteboard.
#[derive(Debug, Clone, Copy, PartialEq, Eq, Structural)]
pub struct Put {}

/// Empties the pasteboard.
#[derive(Debug, Clone, Copy, PartialEq, Eq, Structural)]
pub struct Clear {}

/// The message for a pasteboard that could not list its items.
pub open spec fn items_errored() -> Seq<char> {
    "NSPasteboard#pasteboardItems errored"@
}

/// The message for an answer to another question than the one asked.
pub open spec fn wrong_answer() -> Seq<char> {
    "the pasteboard was asked another question"@
}

/// The first of some optional values that is there.
pub open spec fn first_some<T>(items: Seq<Option<T>>) -> Option<T>
    decreases items.len(),
{
    if items.len() == 0 {
        None
    } else if items[0] is Some {
        items[0]
    } else {
        first_some(items.skip(1))
    }
}

/// The index of the first of some optional values that is there, or the
/// length where none is.
pub open spec fn first_index<T>(items: Seq<Option<T>>) -> int
    decreases items.len(),
{
    if items.len() == 0 || items[0] is Some {
        0
    } else {
        1 + first_index(items.skip(1))
    }
}

/// Where nothing is there among the first `n` values, and something is
/// there behind them or nothing follows, the first that is there has index
/// `n`.
pub proof fn lemma_first_index<T>(items: Seq<Option<T>>, n: int)
    requires
        0 <= n <= items.len(),
        forall|k: int| 0 <= k < n ==> items[k] is None,
        n < items.len() ==> items[n] is Some,
    ensures
        first_index(items) == n,
        first_some(items) == (if n < items.len() {
            items[n]
        } else {
            None
        }),
    decreases n,
{
    if n > 0 {
        lemma_first_index(items.skip(1), n - 1);
    }
}

/// The mathematical value of a [`UrlEntry`].
pub enum UrlEntryView {
    Missing,
    Malformed,
    Url(Option<Seq<char>>),
}

impl View for UrlEntry {
    type V = UrlEntryView;

    open spec fn view(&self) -> UrlEntryView {
        match self {
            UrlEntry::Missing => UrlEntryView::Missing,
            UrlEntry::Malformed => UrlEntryView::Malformed,
            UrlEntry::Url(Some(path)) => UrlEntryView::Url(Some(path@)),
            UrlEntry::Url(None) => UrlEntryView::Url(None),
        }
    }
}

/// The texts of a list of optional strings.
pub open spec fn string_items(items: Seq<Option<String>>) -> Seq<Option<Seq<char>>> {
    Seq::new(
        items.len(),
        |i: int|
            match items[i] {
                Some(text) => Some(text@),
                None => None,
            },
    )
}

/// The contents of a list of optional byte strings.
pub open spec fn data_items(items: Seq<Option<Vec<u8>>>) -> Seq<Option<Seq<u8>>> {
    Seq::new(
        items.len(),
        |i: int|
            match items[i] {
                Some(bytes) => Some(bytes@),
                None => None,
            },
    )
}

/// The values of a list of URL entries.
pub open spec fn url_items(items: Seq<UrlEntry>) -> Seq<UrlEntryView> {
    Seq::new(items.len(), |i: int| items[i]@)
}

/// The mathematical value of a [`PasteboardRead`].
pub enum PasteboardReadView {
    ItemStrings(Option<Seq<Option<Seq<char>>>>),
    ItemData(Option<Seq<Option<Seq<u8>>>>),
    String(Option<Seq<char>>),
    Data(Option<Seq<u8>>),
    ItemUrls(Option<Seq<UrlEntryView>>),
}

impl View for PasteboardRead {
    type V = PasteboardReadView;

    open spec fn view(&self) -> PasteboardReadView {
        match self {
            PasteboardRead::ItemStrings(Some(items)) => PasteboardReadView::ItemStrings(
                Some(string_items(items@)),
            ),
            PasteboardRead::ItemStrings(None) => PasteboardReadView::ItemStrings(None),
            PasteboardRead::ItemData(Some(items)) => PasteboardReadView::ItemData(
                Some(data_items(items@)),
            ),
            PasteboardRead::ItemData(None) => PasteboardReadView::ItemData(None),
            PasteboardRead::String(Some(text)) => PasteboardReadView::String(Some(text@)),
            PasteboardRead::String(None) => PasteboardReadView::String(None),
            PasteboardRead::Data(Some(bytes)) => PasteboardReadView::Data(Some(bytes@)),
            PasteboardRead::Data(None) => PasteboardReadView::Data(None),
            PasteboardRead::ItemUrls(Some(items)) => PasteboardReadView::ItemUrls(
                Some(url_items(items@)),
            ),
            PasteboardRead::ItemUrls(None) => PasteboardReadView::ItemUrls(None),
        }
    }
}

/// What the items of the pasteboard hold of a type: the value of the first
/// item that holds one. A pasteboard that could not list its items is a
/// failure of its own; items none of which holds the type mean that the
/// content is not available.
pub open spec fn first_of<T>(items: Option<Seq<Option<T>>>) -> Result<T, ErrorView> {
    match items {
        Some(list) => match first_some(list) {
            Some(value) => Ok(value),
            None => Err(ErrorView::ContentNotAvailable),
        },
        None => Err(ErrorView::Unknown { description: items_errored() }),
    }
}

/// What the pasteboard as a whole holds of a type.
pub open spec fn whole_of<T>(value: Option<T>) -> Result<T, ErrorView> {
    match value {
        Some(value) => Ok(value),
        None => Err(ErrorView::ContentNotAvailable),
    }
}

/// The paths of the file URLs among the items, in order, up to the first
/// item whose string is no URL. A URL without a path gives none.
pub open spec fn url_paths(entries: Seq<UrlEntryView>) -> Seq<Seq<char>>
    decreases entries.len(),
{
    if entries.len() == 0 {
        Seq::empty()
    } else {
        match entries[0] {
            UrlEntryView::Malformed => Seq::empty(),
            UrlEntryView::Url(Some(path)) => seq![path] + url_paths(entries.skip(1)),
            _ => url_paths(entries.skip(1)),
        }
    }
}

/// The file paths that the items hold. No path at all means that the
/// content is not available.
pub open spec fn file_urls_of(items: Option<Seq<UrlEntryView>>) -> Result<Seq<Seq<char>>, ErrorView> {
    match items {
        Some(entries) => if url_paths(entries).len() > 0 {
            Ok(url_paths(entries))
        } else {
            Err(ErrorView::ContentNotAvailable)
        },
        None => Err(ErrorView::Unknown { description: items_errored() }),
    }
}

/// The raw pixels that the TIFF data of the pasteboard decodes to.
pub open spec fn image_tiff_of(data: Option<Seq<u8>>) -> Result<ImageDataView, ErrorView> {
    match data {
        Some(bytes) => match rgba_of(tiff_pixels(bytes)) {
            Ok(image) => Ok(ImageDataView::Rgba(image)),
            Err(e) => Err(e),
        },
        None => Err(ErrorView::ContentNotAvailable),
    }
}

/// What the read of one format comes to, given what the pasteboard gave. An
/// answer to another question than the format's is a failure.
pub open spec fn read_of(format: ClipboardFormatView, read: PasteboardReadView) -> ItemView {
    match (format, read) {
        (ClipboardFormatView::Text, PasteboardReadView::ItemStrings(items)) => match first_of(items) {
            Ok(text) => Ok(ClipboardDataView::Text(text)),
            Err(e) => Err(e),
        },
        (ClipboardFormatView::Html, PasteboardReadView::ItemStrings(items)) => match first_of(items) {
            Ok(text) => Ok(ClipboardDataView::Html(text)),
            Err(e) => Err(e),
        },
        (ClipboardFormatView::Rtf, PasteboardReadView::ItemStrings(items)) => match first_of(items) {
            Ok(text) => Ok(ClipboardDataView::Rtf(text)),
            Err(e) => Err(e),
        },
        (ClipboardFormatView::ImageRgba, PasteboardReadView::Data(data)) => match image_tiff_of(data) {
            Ok(image) => Ok(ClipboardDataView::Image(image)),
            Err(e) => Err(e),
        },
        (ClipboardFormatView::ImagePng, PasteboardReadView::Data(data)) => match whole_of(data) {
            Ok(bytes) => Ok(ClipboardDataView::Image(ImageDataView::Png(bytes))),
            Err(e) => Err(e),
        },
        (ClipboardFormatView::ImageSvg, PasteboardReadView::String(text)) => match whole_of(text) {
            Ok(text) => Ok(ClipboardDataView::Image(ImageDataView::Svg(text))),
            Err(e) => Err(e),
        },
        (ClipboardFormatView::FileUrl, PasteboardReadView::ItemUrls(items)) => match file_urls_of(
            items,
        ) {
            Ok(paths) => Ok(ClipboardDataView::FileUrl(paths)),
            Err(e) => Err(e),
        },
        (ClipboardFormatView::Special(name), PasteboardReadView::ItemData(items)) => match first_of(
            items,
        ) {
            Ok(bytes) => Ok(ClipboardDataView::Special(name, bytes)),
            Err(e) => Err(e),
        },
        _ => Err(ErrorView::Unknown { description: wrong_answer() }),
    }
}

/// The index of the first of some optional values that is there, or the
/// length where none is.
pub fn find_first<T>(items: &[Option<T>]) -> (index: usize)
    ensures
        index == first_index(items@),
        index <= items@.len(),
        forall|k: int| 0 <= k < index ==> (#[trigger] items@[k]) is None,
        index < items@.len() ==> items@[index as int] is Some && first_some(items@)
            == items@[index as int],
        index == items@.len() ==> first_some(items@) is None,
{
    let mut index: usize = 0;
    while index < items.len() && items[index].is_none()
        invariant
            index <= items.len(),
            forall|k: int| 0 <= k < index ==> items@[k] is None,
        decreases items.len() - index,
    {
        index += 1;
    }
    proof {
        lemma_first_index(items@, index as int);
    }
    index
}

/// The pasteboard could not list its items.
fn items_failure() -> (e: Error)
    ensures
        e@ == (ErrorView::Unknown { description: items_errored() }),
{
    err("NSPasteboard#pasteboardItems errored")
}

impl Clipboard {
    /// The backend, where the system has a pasteboard for it. Where it has
    /// none, the error is [`Error::ClipboardNotSupported`].
    pub fn new(available: bool) -> (r: Result<Clipboard, Error>)
        ensures
            available <==> r is Ok,
            r matches Err(e) ==> e@ == ErrorView::ClipboardNotSupported,
    {
        if available {
            Ok(Clipboard {  })
        } else {
            Err(Error::ClipboardNotSupported)
        }
    }
}

impl Get {
    /// What to ask the pasteboard for a format.
    pub fn request(format: &ClipboardFormat<'_>) -> (request: ReadRequest)
        ensures
            request.lookup == lookup_of(format@),
            request.pasteboard_type@ == type_of(format@),
    {
        match format {
            ClipboardFormat::Text => ReadRequest {
                lookup: Lookup::ItemStrings,
                pasteboard_type: PasteboardType::String,
            },
            ClipboardFormat::Html => ReadRequest {
                lookup: Lookup::ItemStrings,
                pasteboard_type: PasteboardType::Html,
            },
            ClipboardFormat::Rtf => ReadRequest {
                lookup: Lookup::ItemStrings,
                pasteboard_type: PasteboardType::Rtf,
            },
            ClipboardFormat::ImageRgba => ReadRequest {
                lookup: Lookup::Data,
                pasteboard_type: PasteboardType::Tiff,
            },
            ClipboardFormat::ImagePng => ReadRequest {
                lookup: Lookup::Data,
                pasteboard_type: PasteboardType::Png,
            },
            ClipboardFormat::ImageSvg => ReadRequest {
                lookup: Lookup::String,
                pasteboard_type: PasteboardType::Named(String::from_str(NS_PASTEBOARD_TYPE_SVG)),
            },
            ClipboardFormat::FileUrl => ReadRequest {
                lookup: Lookup::ItemUrls,
                pasteboard_type: PasteboardType::FileUrl,
            },
            ClipboardFormat::Special(name) => ReadRequest {
                lookup: Lookup::ItemData,
                pasteboard_type: PasteboardType::Named(String::from_str(name)),
            },
        }
    }

    /// The text of a type: the string of the first item that has one. The
    /// strings of several items are never joined.
    pub fn plain(items: Option<Vec<Option<String>>>) -> (r: Result<String, Error>)
        ensures
            crate::text::text_result(r) == first_of(
                match items {
                    Some(list) => Some(string_items(list@)),
                    None => None,
                },
            ),
    {
        match items {
            Some(list) => {
                let index = find_first(list.as_slice());
                proof {
                    let views = string_items(list@);
                    assert forall|k: int| 0 <= k < index implies views[k] is None by {
                        assert(list@[k] is None);
                    }
                    lemma_first_index(views, index as int);
                }
                if index < list.len() {
                    match &list[index] {
                        Some(text) => Ok(text.clone()),
                        None => Err(Error::ContentNotAvailable),
                    }
                } else {
                    Err(Error::ContentNotAvailable)
                }
            },
            None => Err(items_failure()),
        }
    }

    /// The plain text of the pasteboard.
    pub fn text(items: Option<Vec<Option<String>>>) -> (r: Result<String, Error>)
        ensures
            crate::text::text_result(r) == first_of(
                match items {
                    Some(list) => Some(string_items(list@)),
                    None => None,
                },
            ),
    {
        Self::plain(items)
    }

    /// The rich text of the pasteboard.
    pub fn rtf(items: Option<Vec<Option<String>>>) -> (r: Result<String, Error>)
        ensures
            crate::text::text_result(r) == first_of(
                match items {
                    Some(list) => Some(string_items(list@)),
                    None => None,
                },
            ),
    {
        Self::plain(items)
    }

    /// The HTML of the pasteboard.
    pub fn html(items: Option<Vec<Option<String>>>) -> (r: Result<String, Error>)
        ensures
            crate::text::text_result(r) == first_of(
                match items {
                    Some(list) => Some(string_items(list@)),
                    None => None,
                },
            ),
    {
        Self::plain(items)
    }

    /// The bytes of a special format: the data of the first item that has
    /// some.
    pub fn special(items: Option<Vec<Option<Vec<u8>>>>) -> (r: Result<Vec<u8>, Error>)
        ensures
            crate::codec::bytes_result(r) == first_of(
                match items {
                    Some(list) => Some(data_items(list@)),
                    None => None,
                },
            ),
    {
        match items {
            Some(list) => {
                let index = find_first(list.as_slice());
                proof {
                    let views = data_items(list@);
                    assert forall|k: int| 0 <= k < index implies views[k] is None by {
                        assert(list@[k] is None);
                    }
                    lemma_first_index(views, index as int);
                }
                if index < list.len() {
                    match &list[index] {
                        Some(bytes) => Ok(bytes.clone()),
                        None => Err(Error::ContentNotAvailable),
                    }
                } else {
                    Err(Error::ContentNotAvailable)
                }
            },
            None => Err(items_failure()),
        }
    }

    /// The raw pixels that the TIFF data of the pasteboard decodes to.
    pub fn image_tiff(data: Option<Vec<u8>>) -> (r: Result<ImageData, Error>)
        ensures
            image_result(r) == image_tiff_of(
                match data {
                    Some(bytes) => Some(bytes@),
                    None => None,
                },
            ),
    {
        match data {
            Some(bytes) => match decode_from_tiff(bytes.as_slice()) {
                Ok(image) => Ok(ImageData::Rgba(image)),
                Err(e) => Err(e),
            },
            None => Err(Error::ContentNotAvailable),
        }
    }

    /// The PNG data of the pasteboard, as it is.
    pub fn image_png(data: Option<Vec<u8>>) -> (r: Result<ImageData, Error>)
        ensures
            image_result(r) == (match data {
                Some(bytes) => Ok(ImageDataView::Png(bytes@)),
                None => Err(ErrorView::ContentNotAvailable),
            }),
    {
        match data {
            Some(bytes) => Ok(ImageData::png(bytes)),
            None => Err(Error::ContentNotAvailable),
        }
    }

    /// The SVG document of the pasteboard, as it is.
    pub fn image_svg(text: Option<String>) -> (r: Result<ImageData, Error>)
        ensures
            image_result(r) == (match text {
                Some(text) => Ok(ImageDataView::Svg(text@)),
                None => Err(ErrorView::ContentNotAvailable),
            }),
    {
        match text {
            Some(text) => Ok(ImageData::Svg(text)),
            None => Err(Error::ContentNotAvailable),
        }
    }

    /// The file paths that the items hold.
    pub fn file_urls(items: Option<Vec<UrlEntry>>) -> (r: Result<Vec<String>, Error>)
        ensures
            crate::url::list_result(r) == file_urls_of(
                match items {
                    Some(list) => Some(url_items(list@)),
                    None => None,
                },
            ),
    {
        match items {
            Some(list) => {
                let ghost entries = url_items(list@);
                let mut paths: Vec<String> = Vec::new();
                let mut i: usize = 0;
                let mut open = true;
                proof {
                    assert(entries.skip(0) =~= entries);
                    assert(texts(paths@) + url_paths(entries) =~= url_paths(entries));
                }
                while open && i < list.len()
                    invariant
                        i <= list.len(),
                        entries == url_items(list@),
                        url_paths(entries) == texts(paths@) + (if open {
                            url_paths(entries.skip(i as int))
                        } else {
                            Seq::<Seq<char>>::empty()
                        }),
                    decreases (list.len() - i) + (if open { 1int } else { 0int }),
                {
                    let ghost rest = entries.skip(i as int);
                    let ghost before = texts(paths@);
                    proof {
                        assert(rest[0] == list@[i as int]@);
                        assert(rest.skip(1) =~= entries.skip(i + 1));
                    }
                    match &list[i] {
                        UrlEntry::Malformed => {
                            open = false;
                        },
                        UrlEntry::Url(Some(path)) => {
                            paths.push(path.clone());
                            proof {
                                assert(texts(paths@) =~= before + seq![path@]);
                                assert(before + (seq![path@] + url_paths(rest.skip(1))) =~= (before
                                    + seq![path@]) + url_paths(rest.skip(1)));
                            }
                            i += 1;
                        },
                        _ => {
                            i += 1;
                        },
                    }
                }
                proof {
                    if open {
                        assert(entries.skip(i as int) =~= Seq::<UrlEntryView>::empty());
                    }
                    assert(texts(paths@) + Seq::<Seq<char>>::empty() =~= texts(paths@));
                }
                if paths.len() > 0 {
                    Ok(paths)
                } else {
                    Err(Error::ContentNotAvailable)
                }
            },
            None => Err(items_failure()),
        }
    }
}

/// An answer to another question than the one asked.
fn wrong_answer_failure() -> (e: Error)
    ensures
        e@ == (ErrorView::Unknown { description: wrong_answer() }),
{
    err("the pasteboard was asked another question")
}

/// The generic image read tries the SVG document first, the PNG stream
/// second and the TIFF stream last.
pub open spec fn image_order() -> Seq<ClipboardFormatView> {
    seq![
        ClipboardFormatView::ImageSvg,
        ClipboardFormatView::ImagePng,
        ClipboardFormatView::ImageRgba,
    ]
}

impl Get {
    /// The formats that a generic image read tries, in order. Each attempt
    /// goes to [`crate::dispatch::image_step`], which says whether the next
    /// is made.
    pub fn image_formats() -> (order: [ClipboardFormat<'static>; 3])
        ensures
            format_views(order@) == image_order(),
    {
        let order = [
            ClipboardFormat::ImageSvg,
            ClipboardFormat::ImagePng,
            ClipboardFormat::ImageRgba,
        ];
        assert(format_views(order@) =~= image_order());
        order
    }

    /// What the read of one format comes to, given what the pasteboard gave
    /// for the request of [`Get::request`].
    pub fn format(format: &ClipboardFormat<'_>, read: PasteboardRead) -> (r: Result<
        ClipboardData,
        Error,
    >)
        ensures
            item_view(r) == read_of(format@, read@),
    {
        match format {
            ClipboardFormat::Text => match read {
                PasteboardRead::ItemStrings(items) => match Self::plain(items) {
                    Ok(text) => Ok(ClipboardData::Text(text)),
                    Err(e) => Err(e),
                },
                _ => Err(wrong_answer_failure()),
            },
            ClipboardFormat::Html => match read {
                PasteboardRead::ItemStrings(items) => match Self::plain(items) {
                    Ok(text) => Ok(ClipboardData::Html(text)),
                    Err(e) => Err(e),
                },
                _ => Err(wrong_answer_failure()),
            },
            ClipboardFormat::Rtf => match read {
                PasteboardRead::ItemStrings(items) => match Self::plain(items) {
                    Ok(text) => Ok(ClipboardData::Rtf(text)),
                    Err(e) => Err(e),
                },
                _ => Err(wrong_answer_failure()),
            },
            ClipboardFormat::ImageRgba => match read {
                PasteboardRead::Data(data) => match Self::image_tiff(data) {
                    Ok(image) => Ok(ClipboardData::Image(image)),
                    Err(e) => Err(e),
                },
                _ => Err(wrong_answer_failure()),
            },
            ClipboardFormat::ImagePng => match read {
                PasteboardRead::Data(data) => match Self::image_png(data) {
                    Ok(image) => Ok(ClipboardData::Image(image)),
                    Err(e) => Err(e),
                },
                _ => Err(wrong_answer_failure()),
            },
            ClipboardFormat::ImageSvg => match read {
                PasteboardRead::String(text) => match Self::image_svg(text) {
                    Ok(image) => Ok(ClipboardData::Image(image)),
                    Err(e) => Err(e),
                },
                _ => Err(wrong_answer_failure()),
            },
            ClipboardFormat::FileUrl => match read {
                PasteboardRead::ItemUrls(items) => match Self::file_urls(items) {
                    Ok(paths) => Ok(ClipboardData::FileUrl(paths)),
                    Err(e) => Err(e),
                },
                _ => Err(wrong_answer_failure()),
            },
            ClipboardFormat::Special(name) => match read {
                PasteboardRead::ItemData(items) => match Self::special(items) {
                    Ok(bytes) => Ok(ClipboardData::Special((String::from_str(name), bytes))),
                    Err(e) => Err(e),
                },
                _ => Err(wrong_answer_failure()),
            },
        }
    }
}

/// How an entry reaches the pasteboard.
#[derive(Debug, Clone, Copy, PartialEq, Eq, Structural)]
pub enum Channel {
    /// As an object of its own kind: a string object for text, an image
    /// object for pixels.
    Object,
    /// As a pasteboard item that holds the payload under the type.
    Item,
    /// Set on the pasteboard itself, under the type.
    Direct,
}

/// How pixels are laid out for the system's image object: four channels of
/// eight bits, alpha last, rows one behind the other.
#[derive(Debug, Clone, Copy, PartialEq, Eq, Structural)]
pub struct Bitmap {
    pub width: usize,
    pub height: usize,
    pub bits_per_component: usize,
    pub bits_per_pixel: usize,
    pub bytes_per_row: usize,
}

/// What an entry carries. Pixels come with the layout they are drawn in.
#[derive(Debug, PartialEq, Eq)]
pub enum Payload {
    Text(String),
    Bytes(Vec<u8>),
    Pixels(ImageRgba, Bitmap),
}

/// The mathematical value of a [`Payload`].
pub enum PayloadView {
    Text(Seq<char>),
    Bytes(Seq<u8>),
    Pixels(ImageRgbaView, Bitmap),
}

impl View for Payload {
    type V = PayloadView;

    open spec fn view(&self) -> PayloadView {
        match self {
            Payload::Text(text) => PayloadView::Text(text@),
            Payload::Bytes(bytes) => PayloadView::Bytes(bytes@),
            Payload::Pixels(image, bitmap) => PayloadView::Pixels(image@, *bitmap),
        }
    }
}

/// One thing that a write puts on the pasteboard.
#[derive(Debug, PartialEq, Eq)]
pub struct Entry {
    pub channel: Channel,
    pub pasteboard_type: PasteboardType,
    pub payload: Payload,
}

/// The mathematical value of an [`Entry`].
pub struct EntryView {
    pub channel: Channel,
    pub pasteboard_type: PasteboardTypeView,
    pub payload: PayloadView,
}

impl View for Entry {
    type V = EntryView;

    open spec fn view(&self) -> EntryView {
        EntryView {
            channel: self.channel,
            pasteboard_type: self.pasteboard_type@,
            payload: self.payload@,
        }
    }
}

/// The values of a list of entries.
pub open spec fn entry_views(list: Seq<Entry>) -> Seq<EntryView> {
    Seq::new(list.len(), |i: int| list[i]@)
}

/// A write, laid out: whether the pasteboard is cleared, what is put on it,
/// in order, and the message for a pasteboard that refuses. How a plan is
/// carried out, step by step, is said by [`Put::start`] and [`Put::next`].
#[derive(Debug, PartialEq, Eq)]
pub struct WritePlan {
    pub clear: bool,
    pub entries: Vec<Entry>,
    pub failure: String,
}

/// The mathematical value of a [`WritePlan`].
pub struct WritePlanView {
    pub clear: bool,
    pub entries: Seq<EntryView>,
    pub failure: Seq<char>,
}

impl View for WritePlan {
    type V = WritePlanView;

    open spec fn view(&self) -> WritePlanView {
        WritePlanView {
            clear: self.clear,
            entries: entry_views(self.entries@),
            failure: self.failure@,
        }
    }
}

/// How a write ended, as the pasteboard reports it.
#[derive(Debug, Clone, Copy, PartialEq, Eq, Structural)]
pub enum WriteOutcome {
    /// Everything was put on the pasteboard.
    Written,
    /// The pasteboard refused an entry.
    Refused,
    /// No data object could be made of an entry's bytes.
    NoData,
}

/// Whether the rows of an image can be laid out: the length of a row, four
/// bytes for each pixel, fits the machine word.
pub open spec fn has_layout(image: ImageRgbaView) -> bool {
    image.width * 4 <= usize::MAX
}

/// The layout of an image whose rows can be laid out.
pub open spec fn bitmap_of(image: ImageRgbaView) -> Bitmap {
    Bitmap {
        width: image.width as usize,
        height: image.height as usize,
        bits_per_component: 8,
        bits_per_pixel: 32,
        bytes_per_row: (4 * image.width) as usize,
    }
}

/// The layout of an image's pixels. Its rows have four bytes for each pixel
/// and together are the whole buffer. An image so wide that the length of
/// a row does not fit the machine word, which only an image of no rows can
/// be, gives [`Error::ConversionFailure`].
pub fn image_from_pixels(image: &ImageRgba) -> (r: Result<Bitmap, Error>)
    ensures
        r is Ok <==> has_layout(image@),
        r matches Ok(bitmap) ==> {
            &&& bitmap == bitmap_of(image@)
            &&& bitmap.width == image@.width
            &&& bitmap.height == image@.height
            &&& bitmap.bytes_per_row == 4 * image@.width
            &&& bitmap.bytes_per_row * bitmap.height == image@.bytes.len()
        },
        r matches Err(e) ==> e@ == ErrorView::ConversionFailure && image@.height == 0,
{
    let width = image.width();
    let height = image.height();
    let bytes = image.bytes();
    let len = bytes.len();
    match width.checked_mul(4) {
        Some(bytes_per_row) => {
            assert(bytes_per_row * height == bytes@.len()) by (nonlinear_arith)
                requires
                    bytes_per_row == width * 4,
                    bytes@.len() == width * height * 4,
            ;
            Ok(Bitmap { width, height, bits_per_component: 8, bits_per_pixel: 32, bytes_per_row })
        },
        None => {
            assert(height == 0) by (nonlinear_arith)
                requires
                    width * 4 > usize::MAX,
                    len == width * height * 4,
                    len <= usize::MAX,
                    height >= 0,
                    width >= 0,
            ;
            Err(Error::ConversionFailure)
        },
    }
}

/// What HTML is wrapped in, so that its readers take it for UTF-8.
pub const WRAP_PREFIX: &'static str =
    "<html><head><meta http-equiv=\"content-type\" content=\"text/html; charset=utf-8\"></head><body>";

pub const WRAP_SUFFIX: &'static str = "</body></html>";

/// HTML as it is put on the pasteboard: wrapped, unless it begins with the
/// wrapping already.
pub open spec fn wrapped_html(html: Seq<char>) -> Seq<char> {
    if begins_with(encode_utf8(html), encode_utf8(WRAP_PREFIX@)) {
        html
    } else {
        WRAP_PREFIX@ + html + WRAP_SUFFIX@
    }
}

/// An entry that carries text.
pub open spec fn text_entry(channel: Channel, pasteboard_type: PasteboardTypeView, text: Seq<char>) -> EntryView {
    EntryView { channel, pasteboard_type, payload: PayloadView::Text(text) }
}

/// An entry that carries bytes.
pub open spec fn bytes_entry(channel: Channel, pasteboard_type: PasteboardTypeView, bytes: Seq<u8>) -> EntryView {
    EntryView { channel, pasteboard_type, payload: PayloadView::Bytes(bytes) }
}

/// An entry that carries pixels, which go as an image object drawn in the
/// layout of the image.
pub open spec fn pixels_entry(image: ImageRgbaView) -> EntryView {
    EntryView {
        channel: Channel::Object,
        pasteboard_type: PasteboardTypeView::Tiff,
        payload: PayloadView::Pixels(image, bitmap_of(image)),
    }
}

/// The type that SVG documents go under.
pub open spec fn svg_type() -> PasteboardTypeView {
    PasteboardTypeView::Named(NS_PASTEBOARD_TYPE_SVG@)
}

/// A plan of these parts.
pub open spec fn plan_of(clear: bool, entries: Seq<EntryView>, failure: Seq<char>) -> WritePlanView {
    WritePlanView { clear, entries, failure }
}

/// The write of HTML: the wrapped HTML set under its type, and then, where
/// there is an alternative text, that text set as plain text.
pub open spec fn html_plan(html: Seq<char>, alt: Option<Seq<char>>, clear: bool) -> WritePlanView {
    plan_of(
        clear,
        match alt {
            Some(alt_text) => seq![
                text_entry(Channel::Direct, PasteboardTypeView::Html, wrapped_html(html)),
                text_entry(Channel::Direct, PasteboardTypeView::String, alt_text),
            ],
            None => seq![text_entry(Channel::Direct, PasteboardTypeView::Html, wrapped_html(html))],
        },
        "NSPasteboard#setString_forType: returned false"@,
    )
}

/// The write of raw pixels: one image object. There is no such write for
/// pixels whose rows cannot be laid out.
pub open spec fn pixels_plan(image: ImageRgbaView, clear: bool) -> Result<WritePlanView, ErrorView> {
    if has_layout(image) {
        Ok(
            plan_of(
                clear,
                seq![pixels_entry(image)],
                "Failed to write the image to the pasteboard (`writeObjects` returned NO)."@,
            ),
        )
    } else {
        Err(ErrorView::ConversionFailure)
    }
}

/// The write of an image, in the form it has: pixels as an image object, a
/// PNG stream and an SVG document set under their types.
pub open spec fn image_plan(data: ImageDataView, clear: bool) -> Result<WritePlanView, ErrorView> {
    match data {
        ImageDataView::Rgba(image) => pixels_plan(image, clear),
        ImageDataView::Png(bytes) => Ok(
            plan_of(
                clear,
                seq![bytes_entry(Channel::Direct, PasteboardTypeView::Png, bytes)],
                "Failed to write the PNG image to the pasteboard."@,
            ),
        ),
        ImageDataView::Svg(text) => Ok(
            plan_of(
                clear,
                seq![text_entry(Channel::Direct, svg_type(), text)],
                "Failed to write the SVG image to the pasteboard."@,
            ),
        ),
    }
}

/// What a result that carries a write stands for.
pub open spec fn plan_result(r: Result<WritePlan, Error>) -> Result<WritePlanView, ErrorView> {
    match r {
        Ok(plan) => Ok(plan@),
        Err(e) => Err(e@),
    }
}

/// The URI that a file path is put on the pasteboard as.
pub fn encode_path_to_uri(path: &str) -> (uri: String)
    ensures
        uri@ == ascii_text(uri_of(EncodeSet::Pasteboard, path.spec_bytes())),
        encode_utf8(uri@) == uri_of(EncodeSet::Pasteboard, path.spec_bytes()),
{
    encode_path(EncodeSet::Pasteboard, path)
}

/// An entry of these parts, which carries text.
fn make_text(channel: Channel, pasteboard_type: PasteboardType, text: &str) -> (entry: Entry)
    ensures
        entry@ == text_entry(channel, pasteboard_type@, text@),
{
    Entry { channel, pasteboard_type, payload: Payload::Text(String::from_str(text)) }
}

/// An entry of these parts, which carries bytes.
fn make_bytes(channel: Channel, pasteboard_type: PasteboardType, bytes: &[u8]) -> (entry: Entry)
    ensures
        entry@ == bytes_entry(channel, pasteboard_type@, bytes@),
{
    Entry { channel, pasteboard_type, payload: Payload::Bytes(vstd::slice::slice_to_vec(bytes)) }
}

/// An entry that carries pixels, where their rows can be laid out.
fn make_pixels(image: &ImageRgba) -> (r: Result<Entry, Error>)
    ensures
        r is Ok <==> has_layout(image@),
        r matches Ok(entry) ==> entry@ == pixels_entry(image@),
        r matches Err(e) ==> e@ == ErrorView::ConversionFailure,
{
    match image_from_pixels(image) {
        Ok(bitmap) => Ok(
            Entry {
                channel: Channel::Object,
                pasteboard_type: PasteboardType::Tiff,
                payload: Payload::Pixels(image.to_owned_img(), bitmap),
            },
        ),
        Err(e) => Err(e),
    }
}

/// The type that SVG documents go under.
fn make_svg_type() -> (pasteboard_type: PasteboardType)
    ensures
        pasteboard_type@ == svg_type(),
{
    PasteboardType::Named(String::from_str(NS_PASTEBOARD_TYPE_SVG))
}

/// A plan of one entry.
fn plan_one(clear: bool, entry: Entry, failure: &str) -> (plan: WritePlan)
    ensures
        plan@ == plan_of(clear, seq![entry@], failure@),
{
    let mut entries: Vec<Entry> = Vec::new();
    entries.push(entry);
    assert(entry_views(entries@) =~= seq![entry@]);
    WritePlan { clear, entries, failure: String::from_str(failure) }
}

impl Put {
    /// HTML as it is put on the pasteboard: wrapped in a document that
    /// declares UTF-8, unless it begins with that wrapping already.
    pub fn try_wrap_html(html: &str) -> (wrapped: String)
        ensures
            wrapped@ == wrapped_html(html@),
    {
        if bytes_start_with(html.as_bytes(), WRAP_PREFIX.as_bytes()) {
            String::from_str(html)
        } else {
            let mut wrapped = String::from_str(WRAP_PREFIX);
            wrapped.append(html);
            wrapped.append(WRAP_SUFFIX);
            wrapped
        }
    }

    /// The write of a text: one string object.
    pub fn text_(data: &str, clear: bool) -> (plan: WritePlan)
        ensures
            plan@ == plan_of(
                clear,
                seq![text_entry(Channel::Object, PasteboardTypeView::String, data@)],
                "NSPasteboard#writeObjects: returned false"@,
            ),
    {
        plan_one(
            clear,
            make_text(Channel::Object, PasteboardType::String, data),
            "NSPasteboard#writeObjects: returned false",
        )
    }

    /// The write of a text, on a cleared pasteboard.
    pub fn text(data: &str) -> (plan: WritePlan)
        ensures
            plan@ == plan_of(
                true,
                seq![text_entry(Channel::Object, PasteboardTypeView::String, data@)],
                "NSPasteboard#writeObjects: returned false"@,
            ),
    {
        Self::text_(data, true)
    }

    /// The write of rich text: set under its type.
    pub fn rtf_(data: &str, clear: bool) -> (plan: WritePlan)
        ensures
            plan@ == plan_of(
                clear,
                seq![text_entry(Channel::Direct, PasteboardTypeView::Rtf, data@)],
                "NSPasteboard#setString_forType: returned false"@,
            ),
    {
        plan_one(
            clear,
            make_text(Channel::Direct, PasteboardType::Rtf, data),
            "NSPasteboard#setString_forType: returned false",
        )
    }

    /// The write of rich text, on a cleared pasteboard.
    pub fn rtf(data: &str) -> (plan: WritePlan)
        ensures
            plan@ == plan_of(
                true,
                seq![text_entry(Channel::Direct, PasteboardTypeView::Rtf, data@)],
                "NSPasteboard#setString_forType: returned false"@,
            ),
    {
        Self::rtf_(data, true)
    }

    /// The write of HTML: the wrapped HTML set under its type, and then,
    /// where there is an alternative text, that text set as plain text.
    pub fn html_(html: &str, alt: Option<&str>, clear: bool) -> (plan: WritePlan)
        ensures
            plan@ == html_plan(
                html@,
                match alt {
                    Some(alt_text) => Some(alt_text@),
                    None => None,
                },
                clear,
            ),
    {
        let wrapped = Self::try_wrap_html(html);
        let first = make_text(Channel::Direct, PasteboardType::Html, wrapped.as_str());
        let mut entries: Vec<Entry> = Vec::new();
        entries.push(first);
        match alt {
            Some(alt_text) => {
                let second = make_text(Channel::Direct, PasteboardType::String, alt_text);
                entries.push(second);
                assert(entry_views(entries@) =~= seq![first@, second@]);
            },
            None => {
                assert(entry_views(entries@) =~= seq![first@]);
            },
        }
        WritePlan {
            clear,
            entries,
            failure: String::from_str("NSPasteboard#setString_forType: returned false"),
        }
    }

    /// The write of HTML, on a cleared pasteboard.
    pub fn html(html: &str, alt: Option<&str>) -> (plan: WritePlan)
        ensures
            plan@ == html_plan(
                html@,
                match alt {
                    Some(alt_text) => Some(alt_text@),
                    None => None,
                },
                true,
            ),
    {
        Self::html_(html, alt, true)
    }

    /// The write of raw pixels: one image object, drawn in the layout of the
    /// image. Pixels whose rows cannot be laid out give
    /// [`Error::ConversionFailure`], and no plan.
    pub fn image_pixels(data: &ImageRgba, clear: bool) -> (r: Result<WritePlan, Error>)
        ensures
            plan_result(r) == pixels_plan(data@, clear),
    {
        match make_pixels(data) {
            Ok(entry) => Ok(
                plan_one(
                    clear,
                    entry,
                    "Failed to write the image to the pasteboard (`writeObjects` returned NO).",
                ),
            ),
            Err(e) => Err(e),
        }
    }

    /// The write of a PNG stream: set under its type.
    pub fn image_png(data: &[u8], clear: bool) -> (plan: WritePlan)
        ensures
            plan@ == plan_of(
                clear,
                seq![bytes_entry(Channel::Direct, PasteboardTypeView::Png, data@)],
                "Failed to write the PNG image to the pasteboard."@,
            ),
    {
        plan_one(
            clear,
            make_bytes(Channel::Direct, PasteboardType::Png, data),
            "Failed to write the PNG image to the pasteboard.",
        )
    }

    /// The write of an SVG document: set under its type.
    pub fn image_svg(data: &str, clear: bool) -> (plan: WritePlan)
        ensures
            plan@ == plan_of(
                clear,
                seq![text_entry(Channel::Direct, svg_type(), data@)],
                "Failed to write the SVG image to the pasteboard."@,
            ),
    {
        plan_one(
            clear,
            make_text(Channel::Direct, make_svg_type(), data),
            "Failed to write the SVG image to the pasteboard.",
        )
    }

    /// The write of an image, in the form it has. Pixels whose rows cannot
    /// be laid out give [`Error::ConversionFailure`], and no plan.
    pub fn image_(data: &ImageData, clear: bool) -> (r: Result<WritePlan, Error>)
        ensures
            plan_result(r) == image_plan(data@, clear),
    {
        match data {
            ImageData::Rgba(image) => Self::image_pixels(image, clear),
            ImageData::Png(bytes) => Ok(Self::image_png(bytes.as_slice(), clear)),
            ImageData::Svg(text) => Ok(Self::image_svg(text.as_str(), clear)),
        }
    }

    /// The write of an image, on a cleared pasteboard.
    pub fn image(data: &ImageData) -> (r: Result<WritePlan, Error>)
        ensures
            plan_result(r) == image_plan(data@, true),
    {
        Self::image_(data, true)
    }

    /// The write of the bytes of a special format: set under its name.
    pub fn special_(format_name: &str, data: &[u8], clear: bool) -> (plan: WritePlan)
        ensures
            plan@ == plan_of(
                clear,
                seq![
                    bytes_entry(Channel::Direct, PasteboardTypeView::Named(format_name@), data@),
                ],
                "NSPasteboard#setData_forType: returned false"@,
            ),
    {
        plan_one(
            clear,
            make_bytes(
                Channel::Direct,
                PasteboardType::Named(String::from_str(format_name)),
                data,
            ),
            "NSPasteboard#setData_forType: returned false",
        )
    }

    /// The write of the bytes of a special format, on a cleared pasteboard.
    pub fn special(format_name: &str, data: &[u8]) -> (plan: WritePlan)
        ensures
            plan@ == plan_of(
                true,
                seq![
                    bytes_entry(Channel::Direct, PasteboardTypeView::Named(format_name@), data@),
                ],
                "NSPasteboard#setData_forType: returned false"@,
            ),
    {
        Self::special_(format_name, data, true)
    }

    /// What a write came to, given how the pasteboard reports it ended.
    pub fn finish(plan: &WritePlan, outcome: WriteOutcome) -> (r: Result<(), Error>)
        ensures
            match outcome {
                WriteOutcome::Written => r is Ok,
                WriteOutcome::Refused => r is Err && r->Err_0@ == (ErrorView::Unknown {
                    description: plan@.failure,
                }),
                WriteOutcome::NoData => r is Err && r->Err_0@ == (ErrorView::Unknown {
                    description: "Failed to create NSData from bytes"@,
                }),
            },
    {
        match outcome {
            WriteOutcome::Written => Ok(()),
            WriteOutcome::Refused => Err(err(plan.failure.as_str())),
            WriteOutcome::NoData => Err(err("Failed to create NSData from bytes")),
        }
    }
}

/// Where the carrying out of a plan stands: what is to be done next.
#[derive(Debug, Clone, Copy, PartialEq, Eq, Structural)]
pub enum Stage {
    /// Make the native object for the entry of this index. Nothing touches
    /// the pasteboard yet.
    Make(usize),
    /// Clear the pasteboard.
    Clear,
    /// Set the entry of this index on the pasteboard itself.
    SetDirect(usize),
    /// Write the objects and items of the plan to the pasteboard, together
    /// and in the order of their entries.
    WriteObjects,
    /// The write is over, and ended so.
    Done(WriteOutcome),
}

/// The index of the first entry at or behind `from` that is set on the
/// pasteboard itself, or the number of entries where there is none.
pub open spec fn next_direct(entries: Seq<EntryView>, from: int) -> int
    decreases entries.len() - from,
{
    if from < 0 || from >= entries.len() {
        entries.len() as int
    } else if entries[from].channel == Channel::Direct {
        from
    } else {
        next_direct(entries, from + 1)
    }
}

/// Whether a plan has an entry that goes to the pasteboard as an object or
/// as an item.
pub open spec fn has_objects(entries: Seq<EntryView>) -> bool {
    exists|i: int| 0 <= i < entries.len() && (#[trigger] entries[i]).channel != Channel::Direct
}

/// What is done once the pasteboard is ready, with the entries before
/// `from` dealt with: the next entry that is set directly is set; when none
/// is left, the objects and items are written, if there are any.
pub open spec fn stage_from(plan: WritePlanView, from: int) -> Stage {
    let index = next_direct(plan.entries, from);
    if index < plan.entries.len() {
        Stage::SetDirect(index as usize)
    } else if has_objects(plan.entries) {
        Stage::WriteObjects
    } else {
        Stage::Done(WriteOutcome::Written)
    }
}

/// What is done once every native object is made: the pasteboard is
/// cleared, if the plan says so.
pub open spec fn stage_prepared(plan: WritePlanView) -> Stage {
    if plan.clear {
        Stage::Clear
    } else {
        stage_from(plan, 0)
    }
}

/// How the carrying out of a plan begins: with the native object for its
/// first entry.
pub open spec fn first_stage(plan: WritePlanView) -> Stage {
    if plan.entries.len() > 0 {
        Stage::Make(0)
    } else {
        stage_prepared(plan)
    }
}

/// How the carrying out of a plan goes on after a step, given whether the
/// step succeeded. An object that cannot be made ends the write before the
/// pasteboard is touched. An entry that the pasteboard refuses ends the
/// write, and what follows it is not set.
pub open spec fn next_stage(plan: WritePlanView, stage: Stage, ok: bool) -> Stage {
    match stage {
        Stage::Make(index) => if !ok {
            Stage::Done(WriteOutcome::NoData)
        } else if index + 1 < plan.entries.len() {
            Stage::Make((index + 1) as usize)
        } else {
            stage_prepared(plan)
        },
        Stage::Clear => stage_from(plan, 0),
        Stage::SetDirect(index) => if ok {
            stage_from(plan, index + 1)
        } else {
            Stage::Done(WriteOutcome::Refused)
        },
        Stage::WriteObjects => if ok {
            Stage::Done(WriteOutcome::Written)
        } else {
            Stage::Done(WriteOutcome::Refused)
        },
        Stage::Done(outcome) => Stage::Done(outcome),
    }
}

/// Whether a stage touches the pasteboard.
pub open spec fn touches(stage: Stage) -> bool {
    stage is Clear || stage is SetDirect || stage is WriteObjects
}

/// Where a plan stands after steps that ended as `answers` say, in order.
pub open spec fn stage_after(plan: WritePlanView, answers: Seq<bool>) -> Stage
    decreases answers.len(),
{
    if answers.len() == 0 {
        first_stage(plan)
    } else {
        next_stage(plan, stage_after(plan, answers.drop_last()), answers.last())
    }
}

/// While objects are being made, the plan stands at the object for the next
/// entry, or the write is over because one could not be made.
proof fn lemma_making(plan: WritePlanView, answers: Seq<bool>)
    requires
        plan.entries.len() <= usize::MAX,
        answers.len() < plan.entries.len(),
    ensures
        (forall|k: int| 0 <= k < answers.len() ==> answers[k]) ==> stage_after(plan, answers)
            == Stage::Make(answers.len() as usize),
        !(forall|k: int| 0 <= k < answers.len() ==> answers[k]) ==> stage_after(plan, answers)
            == Stage::Done(WriteOutcome::NoData),
    decreases answers.len(),
{
    if answers.len() > 0 {
        let front = answers.drop_last();
        lemma_making(plan, front);
        if forall|k: int| 0 <= k < front.len() ==> front[k] {
            if answers.last() {
                assert forall|k: int| 0 <= k < answers.len() implies answers[k] by {
                    if k < front.len() {
                        assert(front[k] == answers[k]);
                    }
                }
            } else {
                assert(!answers[answers.len() - 1]);
            }
        } else {
            let k = choose|k: int| 0 <= k < front.len() && !front[k];
            assert(!answers[k]);
        }
    }
}

/// Nothing touches the pasteboard before the native object of every entry
/// is made: at a stage that clears, sets or writes, each entry of the plan
/// has had its object made. This is said of plans that a machine can hold.
pub proof fn lemma_made_before_touched(plan: WritePlanView, answers: Seq<bool>)
    requires
        plan.entries.len() <= usize::MAX,
        touches(stage_after(plan, answers)),
    ensures
        answers.len() >= plan.entries.len(),
        forall|k: int| 0 <= k < plan.entries.len() ==> answers[k],
    decreases answers.len(),
{
    if answers.len() < plan.entries.len() {
        lemma_making(plan, answers);
    } else if answers.len() > 0 {
        let front = answers.drop_last();
        if front.len() < plan.entries.len() {
            lemma_making(plan, front);
            assert forall|k: int| 0 <= k < plan.entries.len() implies answers[k] by {
                if k < front.len() {
                    assert(front[k] == answers[k]);
                }
            }
        } else {
            let before = stage_after(plan, front);
            assert(touches(before)) by {
                lemma_stays_done(plan, front);
            }
            lemma_made_before_touched(plan, front);
            assert forall|k: int| 0 <= k < plan.entries.len() implies answers[k] by {
                assert(front[k] == answers[k]);
            }
        }
    }
}

/// Once every object is made, a stage that does not touch the pasteboard
/// is the end of the write.
proof fn lemma_stays_done(plan: WritePlanView, answers: Seq<bool>)
    requires
        plan.entries.len() <= usize::MAX,
        answers.len() >= plan.entries.len(),
    ensures
        touches(stage_after(plan, answers)) || stage_after(plan, answers) is Done,
    decreases answers.len(),
{
    if answers.len() > plan.entries.len() {
        lemma_stays_done(plan, answers.drop_last());
    } else if answers.len() > 0 {
        lemma_making(plan, answers.drop_last());
    }
}

/// The index of the first entry at or behind `from` that is set on the
/// pasteboard itself, or the number of entries where there is none.
fn find_direct(entries: &Vec<Entry>, from: usize) -> (index: usize)
    ensures
        index == next_direct(entry_views(entries@), from as int),
        index <= entries@.len(),
{
    let len = entries.len();
    if from >= len {
        return len;
    }
    let ghost views = entry_views(entries@);
    let mut index: usize = from;
    while index < len && !matches!(entries[index].channel, Channel::Direct)
        invariant
            from <= index <= len,
            len == entries@.len(),
            views == entry_views(entries@),
            next_direct(views, from as int) == next_direct(views, index as int),
        decreases len - index,
    {
        assert(views[index as int].channel == entries@[index as int].channel);
        index += 1;
    }
    proof {
        if index < len {
            assert(views[index as int].channel == entries@[index as int].channel);
        }
    }
    index
}

/// Whether a plan has an entry that goes to the pasteboard as an object or
/// as an item.
fn find_objects(entries: &Vec<Entry>) -> (found: bool)
    ensures
        found == has_objects(entry_views(entries@)),
{
    let ghost views = entry_views(entries@);
    let mut index: usize = 0;
    while index < entries.len()
        invariant
            index <= entries.len(),
            views == entry_views(entries@),
            forall|k: int| 0 <= k < index ==> (#[trigger] views[k]).channel == Channel::Direct,
        decreases entries.len() - index,
    {
        if !matches!(entries[index].channel, Channel::Direct) {
            assert(views[index as int].channel != Channel::Direct);
            return true;
        }
        assert(views[index as int].channel == Channel::Direct);
        index += 1;
    }
    false
}

impl Put {
    /// What is done once the pasteboard is ready, with the entries before
    /// `from` dealt with.
    fn walk(plan: &WritePlan, from: usize) -> (stage: Stage)
        ensures
            stage == stage_from(plan@, from as int),
    {
        let index = find_direct(&plan.entries, from);
        if index < plan.entries.len() {
            Stage::SetDirect(index)
        } else if find_objects(&plan.entries) {
            Stage::WriteObjects
        } else {
            Stage::Done(WriteOutcome::Written)
        }
    }

    /// What is done once every native object is made.
    fn prepared(plan: &WritePlan) -> (stage: Stage)
        ensures
            stage == stage_prepared(plan@),
    {
        if plan.clear {
            Stage::Clear
        } else {
            Self::walk(plan, 0)
        }
    }

    /// How the carrying out of a plan begins. The native objects are made
    /// first, one for each entry and in order, so that an object that cannot
    /// be made costs the pasteboard nothing.
    pub fn start(plan: &WritePlan) -> (stage: Stage)
        ensures
            stage == first_stage(plan@),
    {
        if plan.entries.len() > 0 {
            Stage::Make(0)
        } else {
            Self::prepared(plan)
        }
    }

    /// How the carrying out of a plan goes on after the step that `stage`
    /// asked for, given whether it succeeded. After the objects are made the
    /// pasteboard is cleared, if the plan says so; then what is set directly
    /// is set entry by entry, up to the first that is refused; and last the
    /// objects and items are written together, if there are any. When
    /// `stage` is `Done`, what it holds goes to [`Put::finish`].
    pub fn next(plan: &WritePlan, stage: Stage, ok: bool) -> (following: Stage)
        ensures
            following == next_stage(plan@, stage, ok),
    {
        let len = plan.entries.len();
        match stage {
            Stage::Make(index) => {
                if !ok {
                    Stage::Done(WriteOutcome::NoData)
                } else if index < len && index + 1 < len {
                    Stage::Make(index + 1)
                } else {
                    Self::prepared(plan)
                }
            },
            Stage::Clear => Self::walk(plan, 0),
            Stage::SetDirect(index) => {
                if !ok {
                    Stage::Done(WriteOutcome::Refused)
                } else if index < len {
                    Self::walk(plan, index + 1)
                } else {
                    let stage = Self::walk(plan, len);
                    assert(next_direct(plan@.entries, index + 1) == next_direct(
                        plan@.entries,
                        len as int,
                    ));
                    stage
                }
            },
            Stage::WriteObjects => {
                if ok {
                    Stage::Done(WriteOutcome::Written)
                } else {
                    Stage::Done(WriteOutcome::Refused)
                }
            },
            Stage::Done(outcome) => Stage::Done(outcome),
        }
    }
}

/// The entries that carry the URIs of some file paths, one item for each.
pub open spec fn url_entries(paths: Seq<Seq<char>>) -> Seq<EntryView> {
    Seq::new(
        paths.len(),
        |i: int|
            text_entry(
                Channel::Item,
                PasteboardTypeView::FileUrl,
                ascii_text(uri_of(EncodeSet::Pasteboard, encode_utf8(paths[i]))),
            ),
    )
}

/// The entries that a value of a batch is written as. Pixels go as an image
/// object, a list of paths as one item for each path, and every other value
/// as one item that holds it under the type of its kind.
pub open spec fn entries_of(data: ClipboardDataView) -> Seq<EntryView> {
    match data {
        ClipboardDataView::Text(text) => seq![
            text_entry(Channel::Item, PasteboardTypeView::String, text),
        ],
        ClipboardDataView::Rtf(text) => seq![text_entry(Channel::Item, PasteboardTypeView::Rtf, text)],
        ClipboardDataView::Html(text) => seq![
            text_entry(Channel::Item, PasteboardTypeView::Html, text),
        ],
        ClipboardDataView::Image(ImageDataView::Rgba(image)) => seq![pixels_entry(image)],
        ClipboardDataView::Image(ImageDataView::Png(bytes)) => seq![
            bytes_entry(Channel::Item, PasteboardTypeView::Png, bytes),
        ],
        ClipboardDataView::Image(ImageDataView::Svg(text)) => seq![
            text_entry(Channel::Item, svg_type(), text),
        ],
        ClipboardDataView::FileUrl(paths) => url_entries(paths),
        ClipboardDataView::Special(name, bytes) => seq![
            bytes_entry(Channel::Item, PasteboardTypeView::Named(name), bytes),
        ],
        ClipboardDataView::Absent => Seq::empty(),
    }
}

/// The entries that the values of a batch are written as, in order.
pub open spec fn all_entries(data: Seq<ClipboardDataView>) -> Seq<EntryView>
    decreases data.len(),
{
    if data.len() == 0 {
        Seq::empty()
    } else {
        all_entries(data.drop_last()) + entries_of(data.last())
    }
}

/// Whether a value can be laid out as entries: all can but pixels whose
/// rows do not fit the machine word.
pub open spec fn can_lay_out(data: ClipboardDataView) -> bool {
    match data {
        ClipboardDataView::Image(ImageDataView::Rgba(image)) => has_layout(image),
        _ => true,
    }
}

/// Whether every value of a list can be laid out as entries.
pub open spec fn all_laid_out(data: Seq<ClipboardDataView>) -> bool {
    forall|i: int| 0 <= i < data.len() ==> can_lay_out(#[trigger] data[i])
}

/// The write that a batch of paired formats and values comes to: each value
/// must stand for its format, and each must be such that it can be laid
/// out; then the pasteboard is cleared and all entries go to it together.
/// A batch that fails either demand has no plan, so that nothing is cleared
/// for it.
pub open spec fn formats_plan(items: Seq<(ClipboardFormat<'_>, ClipboardData)>) -> Result<
    WritePlanView,
    ErrorView,
> {
    if all_match(items) && all_laid_out(pair_data(items)) {
        Ok(
            plan_of(
                true,
                all_entries(pair_data(items)),
                "NSPasteboard#writeObjects: returned false"@,
            ),
        )
    } else {
        Err(ErrorView::ConversionFailure)
    }
}

/// Appends the entries that carry the URIs of some file paths.
fn push_urls(entries: &mut Vec<Entry>, urls: &Vec<String>)
    ensures
        entry_views(final(entries)@) == entry_views(old(entries)@) + url_entries(texts(urls@)),
{
    let ghost before = entry_views(entries@);
    let ghost all = url_entries(texts(urls@));
    let mut i: usize = 0;
    assert(entry_views(entries@) =~= before + all.take(0));
    while i < urls.len()
        invariant
            i <= urls.len(),
            all == url_entries(texts(urls@)),
            entry_views(entries@) == before + all.take(i as int),
        decreases urls.len() - i,
    {
        let uri = encode_path_to_uri(urls[i].as_str());
        let entry = make_text(Channel::Item, PasteboardType::FileUrl, uri.as_str());
        let ghost so_far = entry_views(entries@);
        entries.push(entry);
        proof {
            assert(entry@ == all[i as int]);
            assert(entry_views(entries@) =~= so_far + seq![entry@]);
            assert(all.take(i + 1) =~= all.take(i as int) + seq![all[i as int]]);
            assert(before + (all.take(i as int) + seq![all[i as int]]) =~= (before + all.take(
                i as int,
            )) + seq![all[i as int]]);
        }
        i += 1;
    }
    assert(all.take(i as int) =~= all);
}

/// Appends the entries that a value of a batch is written as, where it can
/// be laid out.
fn push_entries(entries: &mut Vec<Entry>, data: &ClipboardData) -> (r: Result<(), Error>)
    ensures
        r is Ok <==> can_lay_out(data@),
        r is Ok ==> entry_views(final(entries)@) == entry_views(old(entries)@) + entries_of(data@),
        r matches Err(e) ==> e@ == ErrorView::ConversionFailure,
{
    let ghost before = entry_views(entries@);
    match data {
        ClipboardData::FileUrl(urls) => {
            push_urls(entries, urls);
        },
        ClipboardData::Absent => {
            assert(before + Seq::<EntryView>::empty() =~= before);
        },
        ClipboardData::Image(ImageData::Rgba(image)) => {
            match make_pixels(image) {
                Ok(entry) => {
                    entries.push(entry);
                    assert(entry_views(entries@) =~= before + seq![entry@]);
                },
                Err(e) => {
                    return Err(e);
                },
            }
        },
        other => {
            let entry = match other {
                ClipboardData::Text(text) => make_text(
                    Channel::Item,
                    PasteboardType::String,
                    text.as_str(),
                ),
                ClipboardData::Rtf(text) => make_text(
                    Channel::Item,
                    PasteboardType::Rtf,
                    text.as_str(),
                ),
                ClipboardData::Html(text) => make_text(
                    Channel::Item,
                    PasteboardType::Html,
                    text.as_str(),
                ),
                ClipboardData::Image(ImageData::Png(bytes)) => make_bytes(
                    Channel::Item,
                    PasteboardType::Png,
                    bytes.as_slice(),
                ),
                ClipboardData::Image(ImageData::Svg(text)) => make_text(
                    Channel::Item,
                    make_svg_type(),
                    text.as_str(),
                ),
                ClipboardData::Special(pair) => make_bytes(
                    Channel::Item,
                    PasteboardType::Named(pair.0.clone()),
                    pair.1.as_slice(),
                ),
                _ => {
                    return Ok(());
                },
            };
            entries.push(entry);
            assert(entry_views(entries@) =~= before + seq![entry@]);
        },
    }
    Ok(())
}

impl Put {
    /// The write that a batch of paired formats and values comes to. A value
    /// that does not stand for its format, and pixels whose rows cannot be
    /// laid out, give [`Error::ConversionFailure`] and no plan: the
    /// pasteboard keeps what it held.
    pub fn formats(items: &[(ClipboardFormat<'_>, ClipboardData)]) -> (r: Result<WritePlan, Error>)
        ensures
            plan_result(r) == formats_plan(items@),
    {
        match check_pairs(items) {
            Ok(_) => {},
            Err(e) => {
                return Err(e);
            },
        }
        let ghost data = pair_data(items@);
        let mut entries: Vec<Entry> = Vec::new();
        let mut i: usize = 0;
        proof {
            assert(data.take(0) =~= Seq::<ClipboardDataView>::empty());
            assert(entry_views(entries@) =~= all_entries(data.take(0)));
        }
        while i < items.len()
            invariant
                i <= items.len(),
                data == pair_data(items@),
                all_laid_out(data.take(i as int)),
                entry_views(entries@) == all_entries(data.take(i as int)),
            decreases items.len() - i,
        {
            proof {
                assert(data.take(i + 1).drop_last() =~= data.take(i as int));
                assert(data.take(i + 1).last() == items@[i as int].1@);
            }
            match push_entries(&mut entries, &items[i].1) {
                Ok(_) => {},
                Err(e) => {
                    assert(!can_lay_out(data[i as int]));
                    return Err(e);
                },
            }
            proof {
                let now = data.take(i + 1);
                assert forall|k: int| 0 <= k < now.len() implies can_lay_out(#[trigger] now[k]) by {
                    if k < i {
                        assert(data.take(i as int)[k] == now[k]);
                    }
                }
            }
            i += 1;
        }
        assert(data.take(i as int) =~= data);
        Ok(
            WritePlan {
                clear: true,
                entries,
                failure: String::from_str("NSPasteboard#writeObjects: returned false"),
            },
        )
    }
}

/// What the pasteboard gives for a lookup where it holds one entry and
/// nothing else.
pub open spec fn answer_of(lookup: Lookup, entry: EntryView) -> PasteboardReadView {
    match lookup {
        Lookup::ItemStrings => PasteboardReadView::ItemStrings(
            Some(
                seq![
                    match entry.payload {
                        PayloadView::Text(text) => Some(text),
                        _ => None,
                    },
                ],
            ),
        ),
        Lookup::ItemData => PasteboardReadView::ItemData(
            Some(
                seq![
                    match entry.payload {
                        PayloadView::Bytes(bytes) => Some(bytes),
                        _ => None,
                    },
                ],
            ),
        ),
        Lookup::String => PasteboardReadView::String(
            match entry.payload {
                PayloadView::Text(text) => Some(text),
                _ => None,
            },
        ),
        Lookup::Data => PasteboardReadView::Data(
            match entry.payload {
                PayloadView::Bytes(bytes) => Some(bytes),
                _ => None,
            },
        ),
        Lookup::ItemUrls => PasteboardReadView::ItemUrls(Some(seq![UrlEntryView::Missing])),
    }
}

/// A value that a batch writes in the form of its format goes into one item,
/// under the type that the format is looked for under; and where the
/// pasteboard gives back what that item holds, the read of the format gives
/// back the value. This is said of text, rich text, HTML, PNG streams, SVG
/// documents and special formats: pixels and file paths pass through the
/// system's own conversions.
pub proof fn lemma_write_then_read(format: ClipboardFormatView, data: ClipboardDataView)
    requires
        same_form(format, data),
        format != ClipboardFormatView::ImageRgba,
        format != ClipboardFormatView::FileUrl,
    ensures
        entries_of(data).len() == 1,
        entries_of(data)[0].channel == Channel::Item,
        entries_of(data)[0].pasteboard_type == type_of(format),
        read_of(format, answer_of(lookup_of(format), entries_of(data)[0])) == Ok::<
            ClipboardDataView,
            ErrorView,
        >(data),
{
    let entry = entries_of(data)[0];
    match entry.payload {
        PayloadView::Text(text) => {
            let items = seq![Some(text)];
            assert(first_some(items) == Some(text));
        },
        PayloadView::Bytes(bytes) => {
            let items = seq![Some(bytes)];
            assert(first_some(items) == Some(bytes));
        },
        _ => {},
    }
}

impl Clear {
    /// The write that empties the pasteboard: it is cleared, and nothing is
    /// put on it.
    pub fn clear() -> (plan: WritePlan)
        ensures
            plan@ == plan_of(true, Seq::empty(), "NSPasteboard#clearContents failed"@),
    {
        let entries: Vec<Entry> = Vec::new();
        assert(entry_views(entries@) =~= Seq::<EntryView>::empty());
        WritePlan { clear: true, entries, failure: String::from_str("NSPasteboard#clearContents failed") }
    }
}

/// What a result that carries an image stands for.
pub open spec fn image_result(r: Result<ImageData, Error>) -> Result<ImageDataView, ErrorView> {
    match r {
        Ok(image) => Ok(image@),
        Err(e) => Err(e@),
    }
}

} // verus!
