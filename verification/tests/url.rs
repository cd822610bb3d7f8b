use arboard::common::Error;
use arboard::url::{
    encode_path, encode_path_to_uri, encode_uri_list, parse_plain_uri_list, parse_uri_list,
    parse_uri_to_path, EncodeSet,
};

#[test]
fn test_conversion() {
    let path = "/home/rustdesk/pictures/🖼️.png";
    let uri = encode_path_to_uri(&path);
    assert_eq!(uri, "file:///home/rustdesk/pictures/%F0%9F%96%BC%EF%B8%8F.png");
    let convert_back = parse_uri_to_path(&uri).unwrap();
    assert_eq!(path, convert_back);
}

#[test]
fn parse_list() {
    let uri_list = r#"file:///home/rustdesk/pictures/%F0%9F%96%BC%EF%B8%8F.png
file:///home/rustdesk/pictures/%F0%9F%96%BC%EF%B8%8F.png
"#;
    let list = parse_uri_list(uri_list.into()).unwrap();
    assert!(list.len() == 2);
    assert_eq!(list[0], list[1]);
}

#[test]
fn space_and_controls_are_escaped_and_the_separator_is_not() {
    assert_eq!(encode_path_to_uri("/a b/c\td\u{7f}"), "file:///a%20b/c%09d%7F");
    assert_eq!(encode_path_to_uri(""), "file://");
    assert_eq!(encode_path_to_uri("/tmp/100%-done"), "file:///tmp/100%-done");
}

#[test]
fn pasteboard_set_also_escapes_hyphen_and_percent() {
    assert_eq!(
        encode_path(EncodeSet::Pasteboard, "/tmp/100%-done x"),
        "file:///tmp/100%25%2Ddone%20x"
    );
}

#[test]
fn decoding_takes_the_scheme_off_once() {
    assert_eq!(parse_uri_to_path("file:///tmp/a%20b").unwrap(), "/tmp/a b");
    assert_eq!(parse_uri_to_path("/tmp/a%20b").unwrap(), "/tmp/a b");
    assert_eq!(parse_uri_to_path("file://file://x").unwrap(), "file://x");
    assert_eq!(parse_uri_to_path("file://").unwrap(), "");
}

#[test]
fn escapes_decode_in_either_case_and_stray_percent_signs_stay() {
    assert_eq!(parse_uri_to_path("file:///a%2fb%2Fc").unwrap(), "/a/b/c");
    assert_eq!(parse_uri_to_path("file:///100%").unwrap(), "/100%");
    assert_eq!(parse_uri_to_path("file:///1%0").unwrap(), "/1%0");
    assert_eq!(parse_uri_to_path("file:///%zz%41").unwrap(), "/%zzA");
}

#[test]
fn decoded_bytes_that_are_not_utf8_are_a_conversion_failure() {
    assert_eq!(parse_uri_to_path("file:///%FF"), Err(Error::ConversionFailure));
    assert_eq!(parse_uri_list("file:///ok\nfile:///%C3\n"), Err(Error::ConversionFailure));
}

#[test]
fn list_bytes_that_are_not_utf8_are_a_conversion_failure() {
    assert_eq!(parse_plain_uri_list(vec![0x23, 0xff, 0x0a]), Err(Error::ConversionFailure));
    assert_eq!(
        parse_plain_uri_list(b"file:///a\n".to_vec()),
        Ok(vec!["/a".to_string()])
    );
}

#[test]
fn lines_without_the_scheme_are_passed_over() {
    let text = "# a comment\r\nfile:///one\r\nhttp://example.org/two\n\nfile:///three";
    assert_eq!(
        parse_uri_list(text).unwrap(),
        vec!["/one".to_string(), "/three".to_string()]
    );
    assert_eq!(parse_uri_list("").unwrap(), Vec::<String>::new());
    assert_eq!(parse_uri_list("\n\n").unwrap(), Vec::<String>::new());
}

#[test]
fn a_return_before_the_end_of_the_text_belongs_to_the_last_line() {
    assert_eq!(parse_uri_list("file:///a\r").unwrap(), vec!["/a\r".to_string()]);
    assert_eq!(parse_uri_list("file:///a\r\n").unwrap(), vec!["/a".to_string()]);
    assert_eq!(parse_uri_list("file:///a\r\r\n").unwrap(), vec!["/a\r".to_string()]);
}

#[test]
fn a_list_round_trips() {
    let paths = vec![
        "/tmp/test1.txt".to_string(),
        "/tmp/with space/and\nnewline".to_string(),
        "/home/rustdesk/pictures/🖼️.png".to_string(),
        "".to_string(),
        "relative/100%".to_string(),
    ];
    let text = encode_uri_list(&paths);
    assert_eq!(
        text,
        "file:///tmp/test1.txt\nfile:///tmp/with%20space/and%0Anewline\n\
         file:///home/rustdesk/pictures/%F0%9F%96%BC%EF%B8%8F.png\nfile://\nfile://relative/100%"
    );
    assert_eq!(parse_uri_list(&text).unwrap(), paths);
    assert_eq!(encode_uri_list(&[]), "");
}

#[test]
fn a_path_that_spells_an_escape_does_not_round_trip() {
    let uri = encode_path_to_uri("/tmp/a%20b");
    assert_eq!(uri, "file:///tmp/a%20b");
    assert_eq!(parse_uri_to_path(&uri).unwrap(), "/tmp/a b");
    let uri = encode_path(EncodeSet::Pasteboard, "/tmp/a%20b");
    assert_eq!(parse_uri_to_path(&uri).unwrap(), "/tmp/a%20b");
}
