use arboard::platform::osx::{
    encode_path_to_uri, image_from_pixels, Bitmap, Channel, Clear, Clipboard, Entry, Get, Lookup,
    PasteboardRead, PasteboardType, Payload, Put, ReadRequest, Stage, UrlEntry, WriteOutcome,
    WritePlan, NS_PASTEBOARD_TYPE_SVG,
};
use arboard::{ClipboardData, ClipboardFormat, Error, ImageData, ImageRgba};

fn unknown(s: &str) -> Error {
    Error::Unknown { description: s.to_string() }
}

fn named(s: &str) -> PasteboardType {
    PasteboardType::Named(s.to_string())
}

fn text_entry(channel: Channel, pasteboard_type: PasteboardType, text: &str) -> Entry {
    Entry { channel, pasteboard_type, payload: Payload::Text(text.to_string()) }
}

fn bytes_entry(channel: Channel, pasteboard_type: PasteboardType, bytes: &[u8]) -> Entry {
    Entry { channel, pasteboard_type, payload: Payload::Bytes(bytes.to_vec()) }
}

fn one_pixel() -> Bitmap {
    Bitmap { width: 1, height: 1, bits_per_component: 8, bits_per_pixel: 32, bytes_per_row: 4 }
}

/// Carries a plan out against a pasteboard that answers each step as
/// `answer` says, and gives the steps that were asked for and the end.
fn carry_out(plan: &WritePlan, mut answer: impl FnMut(Stage) -> bool) -> (Vec<Stage>, WriteOutcome) {
    let mut asked = vec![];
    let mut stage = Put::start(plan);
    loop {
        if let Stage::Done(outcome) = stage {
            return (asked, outcome);
        }
        asked.push(stage);
        stage = Put::next(plan, stage, answer(stage));
    }
}

const WRAPPED: &str = "<html><head><meta http-equiv=\"content-type\" content=\"text/html; charset=utf-8\"></head><body><b>hi</b></body></html>";

#[test]
fn the_backend_needs_a_pasteboard() {
    assert!(Clipboard::new(true).is_ok());
    assert_eq!(Clipboard::new(false), Err(Error::ClipboardNotSupported));
}

#[test]
fn each_format_is_looked_for_under_its_type() {
    let cases = vec![
        (ClipboardFormat::Text, Lookup::ItemStrings, PasteboardType::String),
        (ClipboardFormat::Html, Lookup::ItemStrings, PasteboardType::Html),
        (ClipboardFormat::Rtf, Lookup::ItemStrings, PasteboardType::Rtf),
        (ClipboardFormat::ImageRgba, Lookup::Data, PasteboardType::Tiff),
        (ClipboardFormat::ImagePng, Lookup::Data, PasteboardType::Png),
        (ClipboardFormat::ImageSvg, Lookup::String, named("public.svg-image")),
        (ClipboardFormat::FileUrl, Lookup::ItemUrls, PasteboardType::FileUrl),
        (ClipboardFormat::Special("x-test/marker"), Lookup::ItemData, named("x-test/marker")),
    ];
    for (format, lookup, pasteboard_type) in cases {
        assert_eq!(Get::request(&format), ReadRequest { lookup, pasteboard_type });
    }
    assert_eq!(NS_PASTEBOARD_TYPE_SVG, "public.svg-image");
}

#[test]
fn text_is_the_string_of_the_first_item_that_has_one() {
    let items = vec![None, Some("second".to_string()), Some("third".to_string())];
    assert_eq!(Get::plain(Some(items)), Ok("second".to_string()));
    assert_eq!(Get::plain(Some(vec![Some("only".to_string())])), Ok("only".to_string()));
    assert_eq!(Get::plain(Some(vec![None, None])), Err(Error::ContentNotAvailable));
    assert_eq!(Get::plain(Some(vec![])), Err(Error::ContentNotAvailable));
    assert_eq!(Get::plain(None), Err(unknown("NSPasteboard#pasteboardItems errored")));
    assert_eq!(Get::text(Some(vec![None, Some("t".to_string())])), Ok("t".to_string()));
    assert_eq!(Get::rtf(Some(vec![Some("{}".to_string())])), Ok("{}".to_string()));
    assert_eq!(Get::html(Some(vec![None])), Err(Error::ContentNotAvailable));
}

#[test]
fn special_data_is_that_of_the_first_item_that_has_some() {
    assert_eq!(Get::special(Some(vec![None, Some(vec![7, 8, 9]), Some(vec![0])])), Ok(vec![7, 8, 9]));
    assert_eq!(Get::special(Some(vec![Some(vec![])])), Ok(vec![]));
    assert_eq!(Get::special(Some(vec![None])), Err(Error::ContentNotAvailable));
    assert_eq!(Get::special(None), Err(unknown("NSPasteboard#pasteboardItems errored")));
}

#[test]
fn images_are_read_in_each_of_their_forms() {
    assert_eq!(Get::image_png(Some(vec![1, 2])), Ok(ImageData::png(vec![1, 2])));
    assert_eq!(Get::image_png(None), Err(Error::ContentNotAvailable));
    assert_eq!(Get::image_svg(Some("<svg/>".to_string())), Ok(ImageData::svg("<svg/>")));
    assert_eq!(Get::image_svg(None), Err(Error::ContentNotAvailable));
    assert_eq!(Get::image_tiff(None), Err(Error::ContentNotAvailable));
    assert_eq!(Get::image_tiff(Some(b"junk".to_vec())), Err(Error::ConversionFailure));

    let pixels = vec![255, 0, 0, 255, 0, 255, 0, 128];
    let mut tiff = std::io::Cursor::new(Vec::new());
    let encoder = image::codecs::tiff::TiffEncoder::new(&mut tiff);
    image::ImageEncoder::write_image(encoder, &pixels, 2, 1, image::ExtendedColorType::Rgba8)
        .unwrap();
    assert_eq!(
        Get::image_tiff(Some(tiff.into_inner())),
        Ok(ImageData::rgba(2, 1, pixels).unwrap())
    );
}

#[test]
fn the_generic_image_read_prefers_svg_then_png_then_tiff() {
    assert_eq!(
        Get::image_formats(),
        [ClipboardFormat::ImageSvg, ClipboardFormat::ImagePng, ClipboardFormat::ImageRgba]
    );
}

#[test]
fn file_paths_are_gathered_up_to_the_first_item_that_is_no_url() {
    let url = |s: &str| UrlEntry::Url(Some(s.to_string()));
    assert_eq!(
        Get::file_urls(Some(vec![url("/a"), UrlEntry::Missing, UrlEntry::Url(None), url("/b c")])),
        Ok(vec!["/a".to_string(), "/b c".to_string()])
    );
    assert_eq!(
        Get::file_urls(Some(vec![url("/a"), UrlEntry::Malformed, url("/b")])),
        Ok(vec!["/a".to_string()])
    );
    assert_eq!(
        Get::file_urls(Some(vec![UrlEntry::Malformed, url("/b")])),
        Err(Error::ContentNotAvailable)
    );
    assert_eq!(
        Get::file_urls(Some(vec![UrlEntry::Missing, UrlEntry::Url(None)])),
        Err(Error::ContentNotAvailable)
    );
    assert_eq!(Get::file_urls(Some(vec![])), Err(Error::ContentNotAvailable));
    assert_eq!(Get::file_urls(None), Err(unknown("NSPasteboard#pasteboardItems errored")));
}

#[test]
fn a_read_has_the_kind_of_its_format() {
    let strings = || PasteboardRead::ItemStrings(Some(vec![Some("hi".to_string())]));
    assert_eq!(Get::format(&ClipboardFormat::Text, strings()), Ok(ClipboardData::Text("hi".to_string())));
    assert_eq!(Get::format(&ClipboardFormat::Html, strings()), Ok(ClipboardData::Html("hi".to_string())));
    assert_eq!(Get::format(&ClipboardFormat::Rtf, strings()), Ok(ClipboardData::Rtf("hi".to_string())));
    assert_eq!(
        Get::format(&ClipboardFormat::ImagePng, PasteboardRead::Data(Some(vec![1]))),
        Ok(ClipboardData::Image(ImageData::png(vec![1])))
    );
    assert_eq!(
        Get::format(&ClipboardFormat::ImageRgba, PasteboardRead::Data(None)),
        Err(Error::ContentNotAvailable)
    );
    assert_eq!(
        Get::format(&ClipboardFormat::ImageSvg, PasteboardRead::String(Some("<svg/>".to_string()))),
        Ok(ClipboardData::Image(ImageData::svg("<svg/>")))
    );
    assert_eq!(
        Get::format(
            &ClipboardFormat::FileUrl,
            PasteboardRead::ItemUrls(Some(vec![UrlEntry::Url(Some("/a".to_string()))]))
        ),
        Ok(ClipboardData::FileUrl(vec!["/a".to_string()]))
    );
    assert_eq!(
        Get::format(
            &ClipboardFormat::Special("x-test/marker"),
            PasteboardRead::ItemData(Some(vec![Some(vec![7, 8, 9])]))
        ),
        Ok(ClipboardData::Special(("x-test/marker".to_string(), vec![7, 8, 9])))
    );
}

#[test]
fn an_answer_to_another_question_is_a_failure() {
    let wrong = unknown("the pasteboard was asked another question");
    assert_eq!(
        Get::format(&ClipboardFormat::Text, PasteboardRead::Data(Some(vec![1]))),
        Err(wrong.clone())
    );
    assert_eq!(
        Get::format(&ClipboardFormat::ImagePng, PasteboardRead::String(None)),
        Err(wrong.clone())
    );
    assert_eq!(
        Get::format(&ClipboardFormat::Special("x"), PasteboardRead::ItemStrings(None)),
        Err(wrong.clone())
    );
    assert_eq!(Get::format(&ClipboardFormat::FileUrl, PasteboardRead::ItemData(None)), Err(wrong));
}

#[test]
fn html_is_wrapped_once() {
    assert_eq!(Put::try_wrap_html("<b>hi</b>"), WRAPPED);
    assert_eq!(Put::try_wrap_html(WRAPPED), WRAPPED);
    assert_eq!(
        Put::try_wrap_html(""),
        "<html><head><meta http-equiv=\"content-type\" content=\"text/html; charset=utf-8\"></head><body></body></html>"
    );
    let half = "<html><head>";
    assert!(Put::try_wrap_html(half).ends_with("<html><head></body></html>"));
}

#[test]
fn single_writes_are_laid_out_as_the_pasteboard_takes_them() {
    let plan = Put::text("hi");
    assert!(plan.clear);
    assert_eq!(plan.entries, vec![text_entry(Channel::Object, PasteboardType::String, "hi")]);
    assert_eq!(plan.failure, "NSPasteboard#writeObjects: returned false");
    assert!(!Put::text_("hi", false).clear);

    let plan = Put::rtf("{}");
    assert_eq!(plan.entries, vec![text_entry(Channel::Direct, PasteboardType::Rtf, "{}")]);
    assert_eq!(plan.failure, "NSPasteboard#setString_forType: returned false");
    assert!(!Put::rtf_("{}", false).clear);

    let plan = Put::html("<b>hi</b>", Some("hi"));
    assert!(plan.clear);
    assert_eq!(
        plan.entries,
        vec![
            text_entry(Channel::Direct, PasteboardType::Html, WRAPPED),
            text_entry(Channel::Direct, PasteboardType::String, "hi"),
        ]
    );
    assert_eq!(plan.failure, "NSPasteboard#setString_forType: returned false");
    assert_eq!(
        Put::html_("<b>hi</b>", None, false).entries,
        vec![text_entry(Channel::Direct, PasteboardType::Html, WRAPPED)]
    );

    let plan = Put::special("x-test/marker", &[7, 8, 9]);
    assert!(plan.clear);
    assert_eq!(plan.entries, vec![bytes_entry(Channel::Direct, named("x-test/marker"), &[7, 8, 9])]);
    assert_eq!(plan.failure, "NSPasteboard#setData_forType: returned false");
    assert!(!Put::special_("x", &[], false).clear);
}

#[test]
fn images_are_laid_out_in_the_form_they_have() {
    let rgba = ImageRgba::new(1, 1, vec![1, 2, 3, 4]).unwrap();
    let plan = Put::image(&ImageData::Rgba(rgba.clone())).unwrap();
    assert!(plan.clear);
    assert_eq!(
        plan.entries,
        vec![Entry {
            channel: Channel::Object,
            pasteboard_type: PasteboardType::Tiff,
            payload: Payload::Pixels(rgba.clone(), one_pixel())
        }]
    );
    assert_eq!(
        plan.failure,
        "Failed to write the image to the pasteboard (`writeObjects` returned NO)."
    );
    assert_eq!(Put::image_pixels(&rgba, false).unwrap().entries, plan.entries);

    let plan = Put::image_(&ImageData::png(vec![9]), false).unwrap();
    assert!(!plan.clear);
    assert_eq!(plan.entries, vec![bytes_entry(Channel::Direct, PasteboardType::Png, &[9])]);
    assert_eq!(plan.failure, "Failed to write the PNG image to the pasteboard.");
    assert_eq!(Put::image_png(&[9], false), plan);

    let plan = Put::image(&ImageData::svg("<svg/>")).unwrap();
    assert_eq!(plan.entries, vec![text_entry(Channel::Direct, named("public.svg-image"), "<svg/>")]);
    assert_eq!(plan.failure, "Failed to write the SVG image to the pasteboard.");
    assert_eq!(Put::image_svg("<svg/>", true), plan);
}

#[test]
fn a_batch_is_laid_out_as_items_in_the_order_of_its_values() {
    let rgba = ImageRgba::new(1, 1, vec![1, 2, 3, 4]).unwrap();
    let items = vec![
        (ClipboardFormat::Text, ClipboardData::Text("t".to_string())),
        (ClipboardFormat::Rtf, ClipboardData::Rtf("{}".to_string())),
        (ClipboardFormat::Html, ClipboardData::Html("<b>hi</b>".to_string())),
        (ClipboardFormat::ImageRgba, ClipboardData::Image(ImageData::Rgba(rgba.clone()))),
        (ClipboardFormat::ImagePng, ClipboardData::Image(ImageData::png(vec![9]))),
        (ClipboardFormat::ImageSvg, ClipboardData::Image(ImageData::svg("<svg/>"))),
        (
            ClipboardFormat::FileUrl,
            ClipboardData::FileUrl(vec!["/tmp/a b".to_string(), "/tmp/100%-done".to_string()]),
        ),
        (ClipboardFormat::Special("x"), ClipboardData::Special(("x".to_string(), vec![1]))),
    ];
    let plan = Put::formats(&items).unwrap();
    assert!(plan.clear);
    assert_eq!(plan.failure, "NSPasteboard#writeObjects: returned false");
    assert_eq!(
        plan.entries,
        vec![
            text_entry(Channel::Item, PasteboardType::String, "t"),
            text_entry(Channel::Item, PasteboardType::Rtf, "{}"),
            text_entry(Channel::Item, PasteboardType::Html, "<b>hi</b>"),
            Entry {
                channel: Channel::Object,
                pasteboard_type: PasteboardType::Tiff,
                payload: Payload::Pixels(rgba, one_pixel())
            },
            bytes_entry(Channel::Item, PasteboardType::Png, &[9]),
            text_entry(Channel::Item, named("public.svg-image"), "<svg/>"),
            text_entry(Channel::Item, PasteboardType::FileUrl, "file:///tmp/a%20b"),
            text_entry(Channel::Item, PasteboardType::FileUrl, "file:///tmp/100%25%2Ddone"),
            bytes_entry(Channel::Item, named("x"), &[1]),
        ]
    );
    let empty = Put::formats(&[]).unwrap();
    assert!(empty.clear);
    assert!(empty.entries.is_empty());
    let no_paths = Put::formats(&[(ClipboardFormat::FileUrl, ClipboardData::FileUrl(vec![]))]).unwrap();
    assert!(no_paths.entries.is_empty());
}

#[test]
fn pixels_that_cannot_be_laid_out_have_no_plan() {
    let too_wide = ImageRgba::new(usize::MAX, 0, vec![]).unwrap();
    assert_eq!(Put::image_pixels(&too_wide, true), Err(Error::ConversionFailure));
    assert_eq!(Put::image_(&ImageData::Rgba(too_wide.clone()), false), Err(Error::ConversionFailure));
    assert_eq!(Put::image(&ImageData::Rgba(too_wide.clone())), Err(Error::ConversionFailure));
    let items = vec![
        (ClipboardFormat::Text, ClipboardData::Text("t".to_string())),
        (ClipboardFormat::ImageRgba, ClipboardData::Image(ImageData::Rgba(too_wide))),
        (ClipboardFormat::Html, ClipboardData::Html("<b>hi</b>".to_string())),
    ];
    assert_eq!(Put::formats(&items), Err(Error::ConversionFailure));
    let no_rows = ImageRgba::new(usize::MAX / 4, 0, vec![]).unwrap();
    assert!(Put::image_pixels(&no_rows, true).is_ok());
}

#[test]
fn objects_are_made_before_the_pasteboard_is_cleared() {
    let (asked, outcome) = carry_out(&Put::text("hi"), |_| true);
    assert_eq!(asked, vec![Stage::Make(0), Stage::Clear, Stage::WriteObjects]);
    assert_eq!(outcome, WriteOutcome::Written);

    let rgba = ImageRgba::new(1, 1, vec![1, 2, 3, 4]).unwrap();
    let items = vec![
        (ClipboardFormat::Text, ClipboardData::Text("t".to_string())),
        (ClipboardFormat::ImageRgba, ClipboardData::Image(ImageData::Rgba(rgba))),
        (ClipboardFormat::Special("x"), ClipboardData::Special(("x".to_string(), vec![1]))),
    ];
    let plan = Put::formats(&items).unwrap();
    let (asked, outcome) = carry_out(&plan, |_| true);
    assert_eq!(
        asked,
        vec![Stage::Make(0), Stage::Make(1), Stage::Make(2), Stage::Clear, Stage::WriteObjects]
    );
    assert_eq!(outcome, WriteOutcome::Written);

    let (asked, outcome) = carry_out(&plan, |stage| stage != Stage::WriteObjects);
    assert_eq!(asked.last(), Some(&Stage::WriteObjects));
    assert_eq!(outcome, WriteOutcome::Refused);
}

#[test]
fn an_object_that_cannot_be_made_ends_the_write_before_anything_is_touched() {
    let plan = Put::formats(&[
        (ClipboardFormat::Text, ClipboardData::Text("t".to_string())),
        (ClipboardFormat::Special("x"), ClipboardData::Special(("x".to_string(), vec![1]))),
        (ClipboardFormat::Html, ClipboardData::Html("h".to_string())),
    ])
    .unwrap();
    let (asked, outcome) = carry_out(&plan, |stage| stage != Stage::Make(1));
    assert_eq!(asked, vec![Stage::Make(0), Stage::Make(1)]);
    assert_eq!(outcome, WriteOutcome::NoData);
    assert_eq!(
        Put::finish(&plan, outcome),
        Err(unknown("Failed to create NSData from bytes"))
    );
    let (asked, outcome) = carry_out(&Put::special("x", &[1]), |_| false);
    assert_eq!(asked, vec![Stage::Make(0)]);
    assert_eq!(outcome, WriteOutcome::NoData);
}

#[test]
fn what_is_set_directly_is_set_up_to_the_first_refusal() {
    let plan = Put::html("<b>hi</b>", Some("hi"));
    let (asked, outcome) = carry_out(&plan, |_| true);
    assert_eq!(
        asked,
        vec![
            Stage::Make(0),
            Stage::Make(1),
            Stage::Clear,
            Stage::SetDirect(0),
            Stage::SetDirect(1)
        ]
    );
    assert_eq!(outcome, WriteOutcome::Written);

    let (asked, outcome) = carry_out(&plan, |stage| stage != Stage::SetDirect(0));
    assert_eq!(asked.last(), Some(&Stage::SetDirect(0)));
    assert_eq!(outcome, WriteOutcome::Refused);
    assert_eq!(
        Put::finish(&plan, outcome),
        Err(unknown("NSPasteboard#setString_forType: returned false"))
    );

    let (asked, outcome) = carry_out(&plan, |stage| stage != Stage::SetDirect(1));
    assert_eq!(asked.len(), 5);
    assert_eq!(outcome, WriteOutcome::Refused);

    let (asked, outcome) = carry_out(&Put::html_("<b>hi</b>", None, false), |_| true);
    assert_eq!(asked, vec![Stage::Make(0), Stage::SetDirect(0)]);
    assert_eq!(outcome, WriteOutcome::Written);
}

#[test]
fn a_plan_without_entries_only_clears() {
    let (asked, outcome) = carry_out(&Clear::clear(), |_| true);
    assert_eq!(asked, vec![Stage::Clear]);
    assert_eq!(outcome, WriteOutcome::Written);
    let (asked, outcome) = carry_out(&Put::formats(&[]).unwrap(), |_| false);
    assert_eq!(asked, vec![Stage::Clear]);
    assert_eq!(outcome, WriteOutcome::Written);
    let nothing = WritePlan { clear: false, entries: vec![], failure: String::new() };
    assert_eq!(Put::start(&nothing), Stage::Done(WriteOutcome::Written));
}

#[test]
fn a_step_off_the_plan_is_taken_as_its_end() {
    let plan = Put::html("<b>hi</b>", Some("hi"));
    assert_eq!(Put::next(&plan, Stage::Make(usize::MAX), true), Stage::Clear);
    assert_eq!(Put::next(&plan, Stage::Make(7), false), Stage::Done(WriteOutcome::NoData));
    assert_eq!(
        Put::next(&plan, Stage::SetDirect(usize::MAX), true),
        Stage::Done(WriteOutcome::Written)
    );
    assert_eq!(
        Put::next(&plan, Stage::Done(WriteOutcome::Refused), true),
        Stage::Done(WriteOutcome::Refused)
    );
    let mixed = WritePlan {
        clear: false,
        entries: vec![
            text_entry(Channel::Item, PasteboardType::String, "a"),
            text_entry(Channel::Direct, PasteboardType::Rtf, "b"),
        ],
        failure: "refused".to_string(),
    };
    let (asked, outcome) = carry_out(&mixed, |_| true);
    assert_eq!(
        asked,
        vec![Stage::Make(0), Stage::Make(1), Stage::SetDirect(1), Stage::WriteObjects]
    );
    assert_eq!(outcome, WriteOutcome::Written);
}

#[test]
fn a_mismatch_refuses_the_batch() {
    let items = vec![
        (ClipboardFormat::Text, ClipboardData::Text("t".to_string())),
        (ClipboardFormat::Special("x"), ClipboardData::Special(("y".to_string(), vec![1]))),
    ];
    assert_eq!(Put::formats(&items), Err(Error::ConversionFailure));
    assert_eq!(
        Put::formats(&[(ClipboardFormat::Html, ClipboardData::Absent)]),
        Err(Error::ConversionFailure)
    );
}

#[test]
fn what_is_written_is_read_back() {
    let pairs = vec![
        (ClipboardFormat::Text, ClipboardData::Text("héllo".to_string())),
        (ClipboardFormat::Html, ClipboardData::Html("<b>hi</b>".to_string())),
        (ClipboardFormat::Rtf, ClipboardData::Rtf("{}".to_string())),
        (ClipboardFormat::ImagePng, ClipboardData::Image(ImageData::png(vec![9]))),
        (ClipboardFormat::ImageSvg, ClipboardData::Image(ImageData::svg("<svg/>"))),
        (
            ClipboardFormat::Special("x-test/marker"),
            ClipboardData::Special(("x-test/marker".to_string(), vec![7, 8, 9])),
        ),
    ];
    for (format, value) in pairs {
        let plan = Put::formats(&[(format, value.clone())]).unwrap();
        assert_eq!(plan.entries.len(), 1);
        let entry = &plan.entries[0];
        let request = Get::request(&format);
        assert_eq!(entry.pasteboard_type, request.pasteboard_type);
        let read = match (request.lookup, &entry.payload) {
            (Lookup::ItemStrings, Payload::Text(t)) => {
                PasteboardRead::ItemStrings(Some(vec![Some(t.clone())]))
            }
            (Lookup::ItemData, Payload::Bytes(b)) => {
                PasteboardRead::ItemData(Some(vec![Some(b.clone())]))
            }
            (Lookup::String, Payload::Text(t)) => PasteboardRead::String(Some(t.clone())),
            (Lookup::Data, Payload::Bytes(b)) => PasteboardRead::Data(Some(b.clone())),
            _ => unreachable!(),
        };
        assert_eq!(Get::format(&format, read), Ok(value));
    }
}

#[test]
fn the_end_of_a_write_comes_to_a_result() {
    let plan = Put::text("hi");
    assert_eq!(Put::finish(&plan, WriteOutcome::Written), Ok(()));
    assert_eq!(
        Put::finish(&plan, WriteOutcome::Refused),
        Err(unknown("NSPasteboard#writeObjects: returned false"))
    );
    assert_eq!(
        Put::finish(&Put::image_png(&[1], true), WriteOutcome::Refused),
        Err(unknown("Failed to write the PNG image to the pasteboard."))
    );
    assert_eq!(
        Put::finish(&plan, WriteOutcome::NoData),
        Err(unknown("Failed to create NSData from bytes"))
    );
}

#[test]
fn a_clear_puts_nothing_on_the_pasteboard() {
    let plan = Clear::clear();
    assert!(plan.clear);
    assert!(plan.entries.is_empty());
    assert_eq!(Put::finish(&plan, WriteOutcome::Written), Ok(()));
}

#[test]
fn pixels_are_laid_out_in_rows_of_four_bytes_a_pixel() {
    let image = ImageRgba::new(3, 2, vec![0; 24]).unwrap();
    assert_eq!(
        image_from_pixels(&image),
        Ok(Bitmap { width: 3, height: 2, bits_per_component: 8, bits_per_pixel: 32, bytes_per_row: 12 })
    );
    let empty = ImageRgba::new(0, 0, vec![]).unwrap();
    assert_eq!(
        image_from_pixels(&empty),
        Ok(Bitmap { width: 0, height: 0, bits_per_component: 8, bits_per_pixel: 32, bytes_per_row: 0 })
    );
    let too_wide = ImageRgba::new(usize::MAX / 2, 0, vec![]).unwrap();
    assert_eq!(image_from_pixels(&too_wide), Err(Error::ConversionFailure));
    let widest = ImageRgba::new(usize::MAX / 4, 0, vec![]).unwrap();
    assert_eq!(image_from_pixels(&widest).unwrap().bytes_per_row, usize::MAX / 4 * 4);
}

#[test]
fn paths_on_the_pasteboard_escape_hyphen_and_percent() {
    assert_eq!(encode_path_to_uri("/tmp/a-b"), "file:///tmp/a%2Db");
    assert_eq!(encode_path_to_uri("/tmp/100%"), "file:///tmp/100%25");
    assert_eq!(encode_path_to_uri("/tmp/🖼️ x"), "file:///tmp/%F0%9F%96%BC%EF%B8%8F%20x");
    assert_eq!(
        arboard::url::parse_uri_to_path(&encode_path_to_uri("/tmp/a%20-b")).unwrap(),
        "/tmp/a%20-b"
    );
}
