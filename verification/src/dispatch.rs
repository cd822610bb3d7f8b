//! The format dispatcher: a batch of formats against one backend.
//!
//! The dispatcher performs no read itself. It says which format is to be
//! read next, takes what the backend's read gave, and at the end of the
//! batch decides between a list of values and an error.

use vstd::prelude::*;

use crate::common::ClipboardData;
use crate::common::ClipboardDataView;
use crate::common::ClipboardFormat;
use crate::common::ClipboardFormatView;
use crate::common::Error;
use crate::common::ErrorView;
use crate::common::ImageData;
use crate::text::str_eq;

verus! {

/// What the read of one format gave, as a mathematical value.
pub type ItemView = Result<ClipboardDataView, ErrorView>;

/// What the read of one format gave.
pub open spec fn item_view(item: Result<ClipboardData, Error>) -> ItemView {
    match item {
        Ok(data) => Ok(data@),
        Err(e) => Err(e@),
    }
}

/// Whether an item counts as a failure of the batch. A format that is
/// merely absent does not.
pub open spec fn is_recorded(item: ItemView) -> bool {
    item matches Err(e) && e != ErrorView::ContentNotAvailable
}

/// The value that stands at an item's position in the result.
pub open spec fn data_of(item: ItemView) -> ClipboardDataView {
    match item {
        Ok(data) => data,
        Err(_) => ClipboardDataView::Absent,
    }
}

/// The values of a list of clipboard data.
pub open spec fn data_views(list: Seq<ClipboardData>) -> Seq<ClipboardDataView> {
    Seq::new(list.len(), |i: int| list[i]@)
}

/// The values of a list of formats.
pub open spec fn format_views(list: Seq<ClipboardFormat<'_>>) -> Seq<ClipboardFormatView> {
    Seq::new(list.len(), |i: int| list[i]@)
}

/// Whether every item of a batch is a recorded failure.
pub open spec fn all_recorded(items: Seq<ItemView>) -> bool {
    forall|i: int| 0 <= i < items.len() ==> is_recorded(#[trigger] items[i])
}

/// How many items of a batch are recorded failures.
pub open spec fn recorded_count(items: Seq<ItemView>) -> nat
    decreases items.len(),
{
    if items.len() == 0 {
        0
    } else {
        recorded_count(items.drop_last()) + (if is_recorded(items.last()) {
            1nat
        } else {
            0nat
        })
    }
}

/// The error of the first recorded failure of a batch.
pub open spec fn first_recorded(items: Seq<ItemView>) -> Option<ErrorView>
    decreases items.len(),
{
    if items.len() == 0 {
        None
    } else {
        match first_recorded(items.drop_last()) {
            Some(e) => Some(e),
            None => if is_recorded(items.last()) {
                Some(items.last()->Err_0)
            } else {
                None
            },
        }
    }
}

/// What a batch comes to. It fails if it is not empty and every one of its
/// items is a recorded failure, and then with the first of their errors.
/// Otherwise it gives one value for each item, in order: the value that was
/// read, or `Absent` where the format was absent or its read failed.
pub open spec fn collected(items: Seq<ItemView>) -> Result<Seq<ClipboardDataView>, ErrorView> {
    if items.len() > 0 && all_recorded(items) {
        Err(items[0]->Err_0)
    } else {
        Ok(Seq::new(items.len(), |i: int| data_of(items[i])))
    }
}

/// What the result of a batch stands for.
pub open spec fn batch_view(r: Result<Vec<ClipboardData>, Error>) -> Result<
    Seq<ClipboardDataView>,
    ErrorView,
> {
    match r {
        Ok(list) => Ok(data_views(list@)),
        Err(e) => Err(e@),
    }
}

/// No more items are recorded than there are, and all are recorded exactly
/// when their count is the length.
pub proof fn lemma_recorded_count(items: Seq<ItemView>)
    ensures
        recorded_count(items) <= items.len(),
        recorded_count(items) == items.len() <==> all_recorded(items),
    decreases items.len(),
{
    if items.len() > 0 {
        let front = items.drop_last();
        lemma_recorded_count(front);
        if recorded_count(items) == items.len() {
            assert forall|i: int| 0 <= i < items.len() implies is_recorded(#[trigger] items[i]) by {
                if i < front.len() {
                    assert(front[i] == items[i]);
                }
            }
        }
        if all_recorded(items) {
            assert forall|i: int| 0 <= i < front.len() implies is_recorded(#[trigger] front[i]) by {
                assert(front[i] == items[i]);
            }
        }
    }
}

/// The first recorded error of a batch that begins with a recorded failure
/// is the error of that failure.
pub proof fn lemma_first_recorded(items: Seq<ItemView>)
    requires
        items.len() > 0,
        is_recorded(items[0]),
    ensures
        first_recorded(items) == Some(items[0]->Err_0),
    decreases items.len(),
{
    let front = items.drop_last();
    if front.len() > 0 {
        lemma_first_recorded(front);
        assert(front[0] == items[0]);
    } else {
        assert(first_recorded(front) == None::<ErrorView>);
        assert(items.last() == items[0]);
    }
}

/// A batch fails with the first recorded error if it is not empty and each
/// of its items is a recorded failure.
pub proof fn lemma_batch_fails(items: Seq<ItemView>)
    requires
        items.len() > 0,
        all_recorded(items),
    ensures
        first_recorded(items) is Some,
        collected(items) == Err::<Seq<ClipboardDataView>, ErrorView>(first_recorded(items)->Some_0),
{
    lemma_first_recorded(items);
}

/// A batch succeeds if one of its items was read or was merely absent, and
/// an empty batch succeeds. The result then has one value for each item, at
/// the item's position.
pub proof fn lemma_batch_succeeds(items: Seq<ItemView>)
    requires
        items.len() == 0 || exists|i: int| 0 <= i < items.len() && !is_recorded(#[trigger] items[i]),
    ensures
        collected(items) is Ok,
        collected(items)->Ok_0.len() == items.len(),
        forall|i: int|
            0 <= i < items.len() ==> (#[trigger] collected(items)->Ok_0[i]) == data_of(items[i]),
{
}

/// What an optional error stands for.
pub open spec fn error_view(e: Option<Error>) -> Option<ErrorView> {
    match e {
        Some(e) => Some(e@),
        None => None,
    }
}

/// A batch of reads under way: the formats that were asked for, and what
/// the reads made so far have given. One read is always outstanding.
pub struct GetFormats<'a> {
    formats: &'a [ClipboardFormat<'a>],
    results: Vec<ClipboardData>,
    first_error: Option<Error>,
    error_count: usize,
    items: Ghost<Seq<ItemView>>,
}

/// The mathematical value of a [`GetFormats`].
pub struct GetFormatsView {
    /// The formats of the batch, in the caller's order.
    pub formats: Seq<ClipboardFormatView>,
    /// What the reads made so far gave, in the same order.
    pub items: Seq<ItemView>,
}

impl View for GetFormats<'_> {
    type V = GetFormatsView;

    closed spec fn view(&self) -> GetFormatsView {
        GetFormatsView { formats: format_views(self.formats@), items: self.items@ }
    }
}

/// What a batch of reads asks of the backend next.
pub enum GetAction<'a> {
    /// Read this format, and hand what the read gave to
    /// [`GetFormats::step`].
    Read(GetFormats<'a>, ClipboardFormat<'a>),
    /// Every format was read; this is what the batch comes to.
    Done(Result<Vec<ClipboardData>, Error>),
}

impl<'a> GetFormats<'a> {
    #[verifier::type_invariant]
    spec fn inv(self) -> bool {
        &&& self.items@.len() < self.formats@.len()
        &&& self.results@.len() == self.items@.len()
        &&& forall|i: int|
            0 <= i < self.results@.len() ==> (#[trigger] self.results@[i])@ == data_of(self.items@[i])
        &&& self.error_count == recorded_count(self.items@)
        &&& error_view(self.first_error) == first_recorded(self.items@)
    }

    /// Starts a batch. An empty batch is done at once, with an empty list.
    /// Any other asks for its first format.
    pub fn begin(formats: &'a [ClipboardFormat<'a>]) -> (action: GetAction<'a>)
        ensures
            match action {
                GetAction::Read(state, format) => {
                    &&& formats@.len() > 0
                    &&& state@.formats == format_views(formats@)
                    &&& state@.items == Seq::<ItemView>::empty()
                    &&& format@ == formats@[0]@
                },
                GetAction::Done(r) => {
                    &&& formats@.len() == 0
                    &&& batch_view(r) == collected(Seq::empty())
                },
            },
    {
        if formats.len() == 0 {
            let results: Vec<ClipboardData> = Vec::new();
            assert(data_views(results@) =~= Seq::new(0, |i: int| data_of(Seq::<ItemView>::empty()[i])));
            GetAction::Done(Ok(results))
        } else {
            let state = GetFormats {
                formats,
                results: Vec::new(),
                first_error: None,
                error_count: 0,
                items: Ghost(Seq::empty()),
            };
            GetAction::Read(state, formats[0])
        }
    }

    /// Takes what the read of the outstanding format gave. An absent format
    /// gives `Absent` at its position. So does any other failure, which is
    /// recorded too. Then the next format is asked for, in the caller's
    /// order, or the batch is done: see [`collected`].
    pub fn step(self, outcome: Result<ClipboardData, Error>) -> (action: GetAction<'a>)
        ensures
            self@.items.len() < self@.formats.len(),
            match action {
                GetAction::Read(state, format) => {
                    &&& self@.items.len() + 1 < self@.formats.len()
                    &&& state@.formats == self@.formats
                    &&& state@.items == self@.items.push(item_view(outcome))
                    &&& format@ == self@.formats[self@.items.len() as int + 1]
                },
                GetAction::Done(r) => {
                    &&& self@.items.len() + 1 == self@.formats.len()
                    &&& batch_view(r) == collected(self@.items.push(item_view(outcome)))
                },
            },
    {
        proof {
            use_type_invariant(&self);
        }
        let ghost before = self.items@;
        let ghost items = before.push(item_view(outcome));
        let GetFormats { formats, mut results, mut first_error, mut error_count, items: _ } = self;
        let total = formats.len();
        proof {
            assert(items.drop_last() =~= before);
            lemma_recorded_count(before);
            assert(error_count < total);
        }
        match outcome {
            Ok(data) => {
                results.push(data);
            },
            Err(Error::ContentNotAvailable) => {
                results.push(ClipboardData::Absent);
            },
            Err(e) => {
                results.push(ClipboardData::Absent);
                error_count += 1;
                if first_error.is_none() {
                    first_error = Some(e);
                }
            },
        }
        if results.len() < total {
            let next = formats[results.len()];
            let state = GetFormats { formats, results, first_error, error_count, items: Ghost(items) };
            GetAction::Read(state, next)
        } else {
            proof {
                lemma_recorded_count(items);
                assert(data_views(results@) =~= Seq::new(items.len(), |i: int| data_of(items[i])));
                if all_recorded(items) {
                    lemma_first_recorded(items);
                }
            }
            if error_count == total {
                match first_error {
                    Some(e) => GetAction::Done(Err(e)),
                    None => GetAction::Done(Ok(results)),
                }
            } else {
                GetAction::Done(Ok(results))
            }
        }
    }
}

/// Whether a value may stand for a format in a write: its kind is the
/// format's kind, an image for each of the three image formats, and a
/// special value carries the name that the format carries.
pub open spec fn tag_matches(format: ClipboardFormatView, data: ClipboardDataView) -> bool {
    match format {
        ClipboardFormatView::Text => data is Text,
        ClipboardFormatView::Html => data is Html,
        ClipboardFormatView::Rtf => data is Rtf,
        ClipboardFormatView::ImageRgba => data is Image,
        ClipboardFormatView::ImagePng => data is Image,
        ClipboardFormatView::ImageSvg => data is Image,
        ClipboardFormatView::FileUrl => data is FileUrl,
        ClipboardFormatView::Special(name) => data matches ClipboardDataView::Special(n, _) && n
            == name,
    }
}

/// Whether `data` may stand for `format` in a write.
pub fn matches_format(format: &ClipboardFormat<'_>, data: &ClipboardData) -> (b: bool)
    ensures
        b == tag_matches(format@, data@),
{
    match format {
        ClipboardFormat::Text => matches!(data, ClipboardData::Text(_)),
        ClipboardFormat::Html => matches!(data, ClipboardData::Html(_)),
        ClipboardFormat::Rtf => matches!(data, ClipboardData::Rtf(_)),
        ClipboardFormat::ImageRgba => matches!(data, ClipboardData::Image(_)),
        ClipboardFormat::ImagePng => matches!(data, ClipboardData::Image(_)),
        ClipboardFormat::ImageSvg => matches!(data, ClipboardData::Image(_)),
        ClipboardFormat::FileUrl => matches!(data, ClipboardData::FileUrl(_)),
        ClipboardFormat::Special(name) => match data {
            ClipboardData::Special(pair) => str_eq(name, pair.0.as_str()),
            _ => false,
        },
    }
}

/// Whether a value has exactly the form that a format is read in: its kind
/// is the format's kind, an image has the representation that the format
/// names, and a special value carries the format's name.
pub open spec fn same_form(format: ClipboardFormatView, data: ClipboardDataView) -> bool {
    match format {
        ClipboardFormatView::Text => data is Text,
        ClipboardFormatView::Html => data is Html,
        ClipboardFormatView::Rtf => data is Rtf,
        ClipboardFormatView::ImageRgba => data matches ClipboardDataView::Image(image) && image is Rgba,
        ClipboardFormatView::ImagePng => data matches ClipboardDataView::Image(image) && image is Png,
        ClipboardFormatView::ImageSvg => data matches ClipboardDataView::Image(image) && image is Svg,
        ClipboardFormatView::FileUrl => data is FileUrl,
        ClipboardFormatView::Special(name) => data matches ClipboardDataView::Special(n, _) && n
            == name,
    }
}

/// The values of a write, without the formats they are paired with.
pub open spec fn pair_data(items: Seq<(ClipboardFormat<'_>, ClipboardData)>) -> Seq<ClipboardDataView> {
    Seq::new(items.len(), |i: int| items[i].1@)
}

/// Whether every value of a write stands for the format it is paired with.
pub open spec fn all_match(items: Seq<(ClipboardFormat<'_>, ClipboardData)>) -> bool {
    forall|i: int| 0 <= i < items.len() ==> tag_matches((#[trigger] items[i]).0@, items[i].1@)
}

/// Checks a write before anything is handed to the platform: each value
/// must stand for the format it is paired with. One that does not gives
/// [`Error::ConversionFailure`].
pub fn check_pairs(items: &[(ClipboardFormat<'_>, ClipboardData)]) -> (r: Result<(), Error>)
    ensures
        r is Ok <==> all_match(items@),
        r matches Err(e) ==> e@ == ErrorView::ConversionFailure,
{
    let mut i: usize = 0;
    while i < items.len()
        invariant
            i <= items.len(),
            forall|k: int| 0 <= k < i ==> tag_matches((#[trigger] items@[k]).0@, items@[k].1@),
        decreases items.len() - i,
    {
        if !matches_format(&items[i].0, &items[i].1) {
            return Err(Error::ConversionFailure);
        }
        i += 1;
    }
    Ok(())
}

/// What a generic image read does with the outcome of one attempt.
#[derive(Debug, PartialEq, Eq)]
pub enum ImageStep {
    /// The representation is absent and another remains: try that one.
    TryNext,
    /// The read is over, with this result.
    Done(Result<ImageData, Error>),
}

/// Whether an attempt found the representation absent.
pub open spec fn found_absent(outcome: Result<ImageData, Error>) -> bool {
    match outcome {
        Ok(_) => false,
        Err(e) => e@ == ErrorView::ContentNotAvailable,
    }
}

/// Decides how a generic image read goes on after one attempt. The
/// representations are tried in the backend's order of preference. An absent
/// one leads to the next, as long as one remains; any other outcome, a
/// failure too, ends the read at once.
pub fn image_step(outcome: Result<ImageData, Error>, more: bool) -> (step: ImageStep)
    ensures
        match step {
            ImageStep::TryNext => more && found_absent(outcome),
            ImageStep::Done(r) => r == outcome && !(more && found_absent(outcome)),
        },
{
    match outcome {
        Err(Error::ContentNotAvailable) => if more {
            ImageStep::TryNext
        } else {
            ImageStep::Done(Err(Error::ContentNotAvailable))
        },
        other => ImageStep::Done(other),
    }
}

} // verus!
