//! File paths to and from the lines of a URI list.
//!
//! A path travels as `file://` followed by its bytes, with some of them
//! written as a percent sign and two hexadecimal digits. A list of paths
//! travels as one such entry per line.

use vstd::prelude::*;
use vstd::slice::slice_subrange;
use vstd::string::StringExecFns;
use vstd::string::StringSliceAdditionalSpecFns;
use vstd::utf8::decode_utf8_encode_utf8;
use vstd::utf8::encode_utf8;
use vstd::utf8::encode_utf8_decode_utf8;
use vstd::utf8::encode_utf8_valid_utf8;
use vstd::utf8::is_ascii_chars;
use vstd::utf8::is_ascii_chars_encode_utf8;
use vstd::utf8::valid_utf8;

use crate::common::texts;
use crate::common::Error;
use crate::common::ErrorView;
use crate::text::decode_text;
use crate::text::text_of;
use crate::text::text_result;

verus! {

/// The bytes that a percent-encoding writes as an escape.
#[derive(Debug, Clone, Copy, PartialEq, Eq, Structural)]
pub enum EncodeSet {
    /// Control characters and the space; the path separator stays as it is.
    Path,
    /// Control characters, the space, the hyphen and the percent sign.
    Pasteboard,
}

impl EncodeSet {
    /// Whether `byte` is written as an escape. Every byte outside ASCII is.
    pub open spec fn escapes(self, byte: u8) -> bool {
        ||| byte < 0x20
        ||| byte == 0x20
        ||| byte >= 0x7f
        ||| (self == EncodeSet::Pasteboard && (byte == 0x2d || byte == 0x25))
    }

    /// Whether `byte` is written as an escape.
    pub fn must_escape(self, byte: u8) -> (b: bool)
        ensures
            b == self.escapes(byte),
    {
        if byte <= 0x20 || byte >= 0x7f {
            true
        } else {
            match self {
                EncodeSet::Path => false,
                EncodeSet::Pasteboard => byte == 0x2d || byte == 0x25,
            }
        }
    }
}

/// The bytes of `file://`.
pub open spec fn scheme() -> Seq<u8> {
    seq![0x66u8, 0x69u8, 0x6cu8, 0x65u8, 0x3au8, 0x2fu8, 0x2fu8]
}

/// Whether `bytes` begins with `file://`.
pub open spec fn has_scheme(bytes: Seq<u8>) -> bool {
    bytes.len() >= 7 && bytes.take(7) == scheme()
}

/// The upper-case hexadecimal digit for a value below sixteen.
pub open spec fn hex_upper(value: int) -> u8 {
    if value < 10 {
        (0x30 + value) as u8
    } else {
        (0x37 + value) as u8
    }
}

/// Whether `byte` is a hexadecimal digit, in either case.
pub open spec fn is_hex_digit(byte: u8) -> bool {
    ||| 0x30 <= byte <= 0x39
    ||| 0x41 <= byte <= 0x46
    ||| 0x61 <= byte <= 0x66
}

/// The value of a hexadecimal digit.
pub open spec fn hex_value(byte: u8) -> int {
    if byte <= 0x39 {
        byte - 0x30
    } else if byte <= 0x46 {
        byte - 0x37
    } else {
        byte - 0x57
    }
}

/// The escape for `byte`: a percent sign and two upper-case digits.
pub open spec fn escape_of(byte: u8) -> Seq<u8> {
    seq![0x25u8, hex_upper(byte as int / 16), hex_upper(byte as int % 16)]
}

/// What one byte becomes under `set`.
pub open spec fn encoded_byte(set: EncodeSet, byte: u8) -> Seq<u8> {
    if set.escapes(byte) {
        escape_of(byte)
    } else {
        seq![byte]
    }
}

/// The percent-encoding of `bytes` under `set`.
pub open spec fn percent_encoded(set: EncodeSet, bytes: Seq<u8>) -> Seq<u8>
    decreases bytes.len(),
{
    if bytes.len() == 0 {
        Seq::empty()
    } else {
        encoded_byte(set, bytes[0]) + percent_encoded(set, bytes.skip(1))
    }
}

/// Whether an escape stands at the front of `bytes`.
pub open spec fn escape_at_front(bytes: Seq<u8>) -> bool {
    bytes.len() >= 3 && bytes[0] == 0x25 && is_hex_digit(bytes[1]) && is_hex_digit(bytes[2])
}

/// The percent-decoding of `bytes`: every percent sign that two hexadecimal
/// digits follow becomes the byte they spell, and nothing else changes.
pub open spec fn percent_decoded(bytes: Seq<u8>) -> Seq<u8>
    decreases bytes.len(),
{
    if bytes.len() == 0 {
        Seq::empty()
    } else if escape_at_front(bytes) {
        seq![(hex_value(bytes[1]) * 16 + hex_value(bytes[2])) as u8] + percent_decoded(
            bytes.skip(3),
        )
    } else {
        seq![bytes[0]] + percent_decoded(bytes.skip(1))
    }
}

/// The text that a sequence of ASCII bytes spells.
pub open spec fn ascii_text(bytes: Seq<u8>) -> Seq<char> {
    Seq::new(bytes.len(), |i: int| bytes[i] as char)
}

/// Whether every byte is below 128.
pub open spec fn all_ascii(bytes: Seq<u8>) -> bool {
    forall|i: int| 0 <= i < bytes.len() ==> bytes[i] < 0x80
}

/// The bytes of the URI for a path: the scheme, then the path's bytes
/// percent-encoded under `set`.
pub open spec fn uri_of(set: EncodeSet, path: Seq<u8>) -> Seq<u8> {
    scheme() + percent_encoded(set, path)
}

/// The percent-encoding of a concatenation is the concatenation of the
/// percent-encodings.
pub proof fn lemma_encoded_concat(set: EncodeSet, a: Seq<u8>, b: Seq<u8>)
    ensures
        percent_encoded(set, a + b) == percent_encoded(set, a) + percent_encoded(set, b),
    decreases a.len(),
{
    if a.len() == 0 {
        assert(a + b =~= b);
    } else {
        lemma_encoded_concat(set, a.skip(1), b);
        assert((a + b).skip(1) =~= a.skip(1) + b);
    }
}

/// A percent-encoding holds ASCII bytes only.
pub proof fn lemma_encoded_ascii(set: EncodeSet, bytes: Seq<u8>)
    ensures
        all_ascii(percent_encoded(set, bytes)),
    decreases bytes.len(),
{
    if bytes.len() > 0 {
        lemma_encoded_ascii(set, bytes.skip(1));
    }
}

/// `percent_encoding::percent_encode_byte`: the escape for `byte`, which the
/// crate reads from a table of all 256 of them.
#[verifier::external_body]
fn escape_text(byte: u8) -> (text: &'static str)
    ensures
        text@ == ascii_text(escape_of(byte)),
{
    percent_encoding::percent_encode_byte(byte)
}

/// `String::push`: the character is appended.
#[verifier::external_body]
fn push_char(text: &mut String, c: char)
    ensures
        final(text)@ == old(text)@.push(c),
{
    text.push(c)
}

/// The URI for `path` under `set`: `file://`, then the bytes of the path,
/// those in the set and those outside ASCII written as escapes.
pub fn encode_path(set: EncodeSet, path: &str) -> (uri: String)
    ensures
        uri@ == ascii_text(uri_of(set, path.spec_bytes())),
        encode_utf8(uri@) == uri_of(set, path.spec_bytes()),
{
    let bytes = path.as_bytes();
    let mut uri = String::from_str("file://");
    proof {
        reveal_strlit("file://");
        assert(uri@ =~= ascii_text(scheme()));
        assert(bytes@.take(0) =~= Seq::<u8>::empty());
        assert(scheme() + percent_encoded(set, bytes@.take(0)) =~= scheme());
    }
    let mut i: usize = 0;
    while i < bytes.len()
        invariant
            i <= bytes.len(),
            uri@ == ascii_text(scheme() + percent_encoded(set, bytes@.take(i as int))),
        decreases bytes.len() - i,
    {
        let byte = bytes[i];
        let ghost before = scheme() + percent_encoded(set, bytes@.take(i as int));
        proof {
            lemma_encoded_concat(set, bytes@.take(i as int), seq![byte]);
            assert(bytes@.take(i + 1) =~= bytes@.take(i as int) + seq![byte]);
            assert(seq![byte].skip(1) =~= Seq::<u8>::empty());
            assert(percent_encoded(set, seq![byte].skip(1)) =~= Seq::<u8>::empty());
            assert(percent_encoded(set, seq![byte]) =~= encoded_byte(set, byte));
        }
        if set.must_escape(byte) {
            uri.append(escape_text(byte));
            assert(uri@ =~= ascii_text(before + escape_of(byte)));
        } else {
            push_char(&mut uri, byte as char);
            assert(uri@ =~= ascii_text(before + seq![byte]));
        }
        assert(scheme() + percent_encoded(set, bytes@.take(i + 1)) =~= before + encoded_byte(
            set,
            byte,
        ));
        i += 1;
    }
    proof {
        assert(bytes@.take(i as int) =~= bytes@);
        lemma_uri_ascii(set, bytes@);
        lemma_ascii_text_bytes(uri_of(set, bytes@));
    }
    uri
}

/// The URI under which a path stands in a URI list.
pub fn encode_path_to_uri(path: &str) -> (uri: String)
    ensures
        uri@ == ascii_text(uri_of(EncodeSet::Path, path.spec_bytes())),
        encode_utf8(uri@) == uri_of(EncodeSet::Path, path.spec_bytes()),
{
    encode_path(EncodeSet::Path, path)
}

/// `percent_encoding::percent_decode`, collected into a vector: each percent
/// sign that two hexadecimal digits follow gives the byte they spell, and
/// every other byte gives itself.
#[verifier::external_body]
fn percent_decode(input: &[u8]) -> (decoded: Vec<u8>)
    ensures
        decoded@ == percent_decoded(input@),
{
    percent_encoding::percent_decode(input).collect()
}

/// `bytes` without the scheme, where they begin with it.
pub open spec fn without_scheme(bytes: Seq<u8>) -> Seq<u8> {
    if has_scheme(bytes) {
        bytes.skip(7)
    } else {
        bytes
    }
}

/// The path that a URI stands for: what follows the scheme, percent-decoded
/// and read as UTF-8.
pub open spec fn path_of(uri: Seq<u8>) -> Result<Seq<char>, ErrorView> {
    text_of(percent_decoded(without_scheme(uri)))
}

/// Whether `bytes` begins with `file://`.
pub fn starts_with_scheme(bytes: &[u8]) -> (b: bool)
    ensures
        b == has_scheme(bytes@),
{
    if bytes.len() < 7 {
        return false;
    }
    let found = bytes[0] == 0x66 && bytes[1] == 0x69 && bytes[2] == 0x6c && bytes[3] == 0x65
        && bytes[4] == 0x3a && bytes[5] == 0x2f && bytes[6] == 0x2f;
    proof {
        if found {
            assert(bytes@.take(7) =~= scheme());
        } else {
            let head = bytes@.take(7);
            assert(head[0] == bytes@[0] && head[1] == bytes@[1] && head[2] == bytes@[2]
                && head[3] == bytes@[3] && head[4] == bytes@[4] && head[5] == bytes@[5]
                && head[6] == bytes@[6]);
        }
    }
    found
}

/// The path that the bytes of a URI stand for.
pub fn path_from_uri(uri: &[u8]) -> (r: Result<String, Error>)
    ensures
        text_result(r) == path_of(uri@),
{
    let rest = if starts_with_scheme(uri) {
        slice_subrange(uri, 7, uri.len())
    } else {
        uri
    };
    assert(rest@ =~= without_scheme(uri@));
    decode_text(percent_decode(rest))
}

/// The path that a URI stands for. The scheme is taken off where the URI
/// begins with it, the rest is percent-decoded, and the result must be
/// UTF-8: else the error is [`Error::ConversionFailure`].
pub fn parse_uri_to_path(encoded_uri: &str) -> (r: Result<String, Error>)
    ensures
        text_result(r) == path_of(encoded_uri.spec_bytes()),
{
    path_from_uri(encoded_uri.as_bytes())
}

/// Whether an escape stands at index `i` of `bytes`: a percent sign with two
/// hexadecimal digits behind it.
pub open spec fn escape_at(bytes: Seq<u8>, i: int) -> bool {
    &&& 0 <= i
    &&& i + 2 < bytes.len()
    &&& bytes[i] == 0x25
    &&& is_hex_digit(bytes[i + 1])
    &&& is_hex_digit(bytes[i + 2])
}

/// Whether `bytes` spells an escape somewhere.
pub open spec fn spells_escape(bytes: Seq<u8>) -> bool {
    exists|i: int| escape_at(bytes, i)
}

/// The two digits of an escape spell the byte it was made for.
proof fn lemma_escape_value(byte: u8)
    ensures
        is_hex_digit(hex_upper(byte as int / 16)),
        is_hex_digit(hex_upper(byte as int % 16)),
        hex_value(hex_upper(byte as int / 16)) * 16 + hex_value(hex_upper(byte as int % 16))
            == byte,
{
}

/// A percent-encoding of bytes that are there begins with what the first of
/// them becomes.
proof fn lemma_encoded_front(set: EncodeSet, bytes: Seq<u8>)
    requires
        bytes.len() > 0,
    ensures
        percent_encoded(set, bytes).len() >= 1,
        percent_encoded(set, bytes)[0] == (if set.escapes(bytes[0]) {
            0x25u8
        } else {
            bytes[0]
        }),
{
}

/// Percent-decoding undoes percent-encoding, unless the set leaves the
/// percent sign alone and the bytes spell an escape themselves.
pub proof fn lemma_decoded_encoded(set: EncodeSet, bytes: Seq<u8>)
    requires
        set.escapes(0x25) || !spells_escape(bytes),
    ensures
        percent_decoded(percent_encoded(set, bytes)) == bytes,
    decreases bytes.len(),
{
    if bytes.len() > 0 {
        let first = bytes[0];
        let rest = bytes.skip(1);
        let encoded = percent_encoded(set, bytes);
        let tail = percent_encoded(set, rest);
        assert(encoded == encoded_byte(set, first) + tail);
        if !set.escapes(0x25) {
            assert forall|i: int| !escape_at(rest, i) by {
                if escape_at(rest, i) {
                    assert(escape_at(bytes, i + 1));
                }
            }
        }
        lemma_decoded_encoded(set, rest);
        if set.escapes(first) {
            lemma_escape_value(first);
            assert(escape_at_front(encoded));
            assert(encoded.skip(3) =~= tail);
            assert(percent_decoded(encoded) =~= seq![first] + rest);
        } else {
            if first == 0x25 {
                assert(!escape_at(bytes, 0));
                if rest.len() > 0 {
                    lemma_encoded_front(set, rest);
                    assert(encoded[1] == tail[0]);
                    if !set.escapes(rest[0]) && is_hex_digit(rest[0]) {
                        let after = rest.skip(1);
                        assert(tail == encoded_byte(set, rest[0]) + percent_encoded(set, after));
                        if after.len() > 0 {
                            lemma_encoded_front(set, after);
                            assert(encoded[2] == percent_encoded(set, after)[0]);
                            assert(after[0] == bytes[2]);
                        } else {
                            assert(percent_encoded(set, after).len() == 0);
                            assert(encoded.len() == 2);
                        }
                    }
                } else {
                    assert(tail.len() == 0);
                }
                assert(!escape_at_front(encoded));
            }
            assert(encoded.skip(1) =~= tail);
            assert(percent_decoded(encoded) =~= seq![first] + rest);
        }
        assert(seq![first] + rest =~= bytes);
    }
}

/// The text that ASCII bytes spell has those bytes as its UTF-8 encoding.
pub proof fn lemma_ascii_text_bytes(bytes: Seq<u8>)
    requires
        all_ascii(bytes),
    ensures
        encode_utf8(ascii_text(bytes)) == bytes,
{
    let text = ascii_text(bytes);
    assert(is_ascii_chars(text)) by {
        assert forall|i: int| 0 <= i < text.len() implies '\0' <= #[trigger] text[i] <= '\u{7f}' by {
            assert(bytes[i] < 0x80);
        }
    }
    is_ascii_chars_encode_utf8(text);
    assert(encode_utf8(text) =~= bytes) by {
        assert forall|i: int| 0 <= i < bytes.len() implies encode_utf8(text)[i] == bytes[i] by {
            assert(text[i] as u8 == encode_utf8(text)[i]);
            assert(bytes[i] < 0x80);
        }
    }
}

/// A URI holds ASCII bytes only.
pub proof fn lemma_uri_ascii(set: EncodeSet, path: Seq<u8>)
    ensures
        all_ascii(uri_of(set, path)),
{
    lemma_encoded_ascii(set, path);
}

/// Decoding the URI of a path gives the path back, for every path under a
/// set that escapes the percent sign, and under the other set for every path
/// whose bytes do not themselves spell an escape.
pub proof fn lemma_path_round_trip(set: EncodeSet, path: Seq<char>)
    requires
        set.escapes(0x25) || !spells_escape(encode_utf8(path)),
    ensures
        path_of(uri_of(set, encode_utf8(path))) == Ok::<Seq<char>, ErrorView>(path),
{
    let bytes = encode_utf8(path);
    let uri = uri_of(set, bytes);
    assert(uri.take(7) =~= scheme());
    assert(uri.skip(7) =~= percent_encoded(set, bytes));
    lemma_decoded_encoded(set, bytes);
    encode_utf8_valid_utf8(path);
    encode_utf8_decode_utf8(path);
}

/// How many bytes stand before the first line feed of `bytes`, or before the
/// end where there is none.
pub open spec fn line_end(bytes: Seq<u8>) -> int
    decreases bytes.len(),
{
    if bytes.len() == 0 || bytes[0] == 0x0a {
        0
    } else {
        1 + line_end(bytes.skip(1))
    }
}

/// `line` without the carriage return that it ends with, if it ends with one.
pub open spec fn without_return(line: Seq<u8>) -> Seq<u8> {
    if line.len() > 0 && line.last() == 0x0d {
        line.drop_last()
    } else {
        line
    }
}

/// The lines of a text. A line ends with a line feed, or with a carriage
/// return and a line feed, neither of which belongs to it. What follows the
/// last line feed is a line too, whole, unless nothing follows.
pub open spec fn lines_of(bytes: Seq<u8>) -> Seq<Seq<u8>>
    decreases bytes.len(),
{
    let end = line_end(bytes);
    if bytes.len() == 0 {
        Seq::empty()
    } else if 0 <= end < bytes.len() {
        seq![without_return(bytes.take(end))] + lines_of(bytes.skip(end + 1))
    } else {
        seq![bytes]
    }
}

/// `front` put before the paths of a result, where there are any.
pub open spec fn with_front(
    front: Seq<Seq<char>>,
    r: Result<Seq<Seq<char>>, ErrorView>,
) -> Result<Seq<Seq<char>>, ErrorView> {
    match r {
        Ok(rest) => Ok(front + rest),
        Err(e) => Err(e),
    }
}

/// The paths that the lines of a URI list stand for. A line that does not
/// begin with the scheme stands for none. A line that does must decode, or
/// the whole list is refused.
pub open spec fn paths_of(lines: Seq<Seq<u8>>) -> Result<Seq<Seq<char>>, ErrorView>
    decreases lines.len(),
{
    if lines.len() == 0 {
        Ok(Seq::empty())
    } else if !has_scheme(lines[0]) {
        paths_of(lines.skip(1))
    } else {
        match path_of(lines[0]) {
            Ok(path) => with_front(seq![path], paths_of(lines.skip(1))),
            Err(e) => Err(e),
        }
    }
}

/// What a result that carries a list of texts stands for.
pub open spec fn list_result(r: Result<Vec<String>, Error>) -> Result<Seq<Seq<char>>, ErrorView> {
    match r {
        Ok(list) => Ok(texts(list@)),
        Err(e) => Err(e@),
    }
}

/// Where no line feed stands among the first `n` bytes, and one stands behind
/// them or nothing does, the first line has `n` bytes.
proof fn lemma_line_end(bytes: Seq<u8>, n: int)
    requires
        0 <= n <= bytes.len(),
        forall|k: int| 0 <= k < n ==> bytes[k] != 0x0a,
        n < bytes.len() ==> bytes[n] == 0x0a,
    ensures
        line_end(bytes) == n,
    decreases n,
{
    if n > 0 {
        lemma_line_end(bytes.skip(1), n - 1);
    }
}

/// Putting nothing in front changes nothing.
proof fn lemma_with_empty_front(r: Result<Seq<Seq<char>>, ErrorView>)
    ensures
        with_front(Seq::empty(), r) == r,
{
    match r {
        Ok(rest) => {
            assert(Seq::<Seq<char>>::empty() + rest =~= rest);
        },
        Err(_) => {},
    }
}

/// Putting `b` in front and then `a` puts `a + b` in front.
proof fn lemma_with_front_twice(
    a: Seq<Seq<char>>,
    b: Seq<Seq<char>>,
    r: Result<Seq<Seq<char>>, ErrorView>,
)
    ensures
        with_front(a, with_front(b, r)) == with_front(a + b, r),
{
    match r {
        Ok(rest) => {
            assert(a + (b + rest) =~= (a + b) + rest);
        },
        Err(_) => {},
    }
}

/// The paths of a URI list, given as bytes.
pub fn paths_from_list(bytes: &[u8]) -> (r: Result<Vec<String>, Error>)
    ensures
        list_result(r) == paths_of(lines_of(bytes@)),
{
    let mut list: Vec<String> = Vec::new();
    let mut pos: usize = 0;
    proof {
        assert(bytes@.skip(0) =~= bytes@);
        assert(texts(list@) + Seq::<Seq<char>>::empty() =~= Seq::<Seq<char>>::empty());
        assert(texts(list@) =~= Seq::<Seq<char>>::empty());
        lemma_with_empty_front(paths_of(lines_of(bytes@)));
    }
    while pos < bytes.len()
        invariant
            pos <= bytes.len(),
            paths_of(lines_of(bytes@)) == with_front(
                texts(list@),
                paths_of(lines_of(bytes@.skip(pos as int))),
            ),
        decreases bytes.len() - pos,
    {
        let ghost rest = bytes@.skip(pos as int);
        let mut end: usize = pos;
        while end < bytes.len() && bytes[end] != 0x0a
            invariant
                pos <= end <= bytes.len(),
                forall|k: int| pos <= k < end ==> bytes@[k] != 0x0a,
            decreases bytes.len() - end,
        {
            end += 1;
        }
        proof {
            lemma_line_end(rest, end - pos);
        }
        let mut stop: usize = end;
        let mut next: usize = end;
        if end < bytes.len() {
            next = end + 1;
            if end > pos && bytes[end - 1] == 0x0d {
                stop = end - 1;
            }
        }
        let line = slice_subrange(bytes, pos, stop);
        let ghost tail = bytes@.skip(next as int);
        proof {
            if end < bytes.len() {
                assert(rest.take(end - pos) =~= bytes@.subrange(pos as int, end as int));
                assert(line@ =~= without_return(rest.take(end - pos)));
                assert(rest.skip(end - pos + 1) =~= tail);
                assert(lines_of(rest) == seq![line@] + lines_of(tail));
            } else {
                assert(line@ =~= rest);
                assert(tail.len() == 0);
                assert(lines_of(rest) =~= seq![line@] + lines_of(tail));
            }
            assert(lines_of(rest)[0] == line@);
            assert(lines_of(rest).skip(1) =~= lines_of(tail));
        }
        let ghost before = texts(list@);
        if starts_with_scheme(line) {
            match path_from_uri(line) {
                Ok(path) => {
                    list.push(path);
                    proof {
                        assert(texts(list@) =~= before + seq![path@]);
                        lemma_with_front_twice(before, seq![path@], paths_of(lines_of(tail)));
                    }
                },
                Err(e) => {
                    return Err(e);
                },
            }
        }
        pos = next;
    }
    proof {
        assert(lines_of(bytes@.skip(pos as int)) =~= Seq::<Seq<u8>>::empty());
        assert(texts(list@) + Seq::<Seq<char>>::empty() =~= texts(list@));
    }
    Ok(list)
}

/// The paths of a URI list: the text is split into lines, the lines that do
/// not begin with `file://` are passed over, and what follows the scheme in
/// each of the others is percent-decoded and read as UTF-8. One line whose
/// decoded bytes are not UTF-8 gives [`Error::ConversionFailure`].
pub fn parse_uri_list(text: &str) -> (r: Result<Vec<String>, Error>)
    ensures
        list_result(r) == paths_of(lines_of(text.spec_bytes())),
{
    paths_from_list(text.as_bytes())
}

/// The paths of a URI list that arrived as bytes. Bytes that are not UTF-8
/// give [`Error::ConversionFailure`], whatever lines they hold.
pub fn parse_plain_uri_list(v: Vec<u8>) -> (r: Result<Vec<String>, Error>)
    ensures
        list_result(r) == (if valid_utf8(v@) {
            paths_of(lines_of(v@))
        } else {
            Err(ErrorView::ConversionFailure)
        }),
{
    match decode_text(v) {
        Ok(text) => {
            proof {
                decode_utf8_encode_utf8(v@);
            }
            parse_uri_list(text.as_str())
        },
        Err(e) => Err(e),
    }
}

/// The entries with a line feed between each two of them.
pub open spec fn joined(entries: Seq<Seq<u8>>) -> Seq<u8>
    decreases entries.len(),
{
    if entries.len() == 0 {
        Seq::empty()
    } else if entries.len() == 1 {
        entries[0]
    } else {
        joined(entries.drop_last()) + seq![0x0au8] + entries.last()
    }
}

/// The URIs of a list of paths.
pub open spec fn uris_of(set: EncodeSet, paths: Seq<Seq<char>>) -> Seq<Seq<u8>> {
    Seq::new(paths.len(), |i: int| uri_of(set, encode_utf8(paths[i])))
}

/// The bytes of the URI list for a list of paths: one URI for each path, in
/// order, with a line feed between each two.
pub open spec fn uri_list_of(set: EncodeSet, paths: Seq<Seq<char>>) -> Seq<u8> {
    joined(uris_of(set, paths))
}

/// The URI list for a list of paths: `file://` and the percent-encoded path
/// for each, joined by line feeds.
pub fn encode_uri_list(urls: &[String]) -> (text: String)
    ensures
        text@ == ascii_text(uri_list_of(EncodeSet::Path, texts(urls@))),
        encode_utf8(text@) == uri_list_of(EncodeSet::Path, texts(urls@)),
{
    let set = EncodeSet::Path;
    let mut text = String::new();
    let mut i: usize = 0;
    proof {
        assert(uris_of(set, texts(urls@.take(0))) =~= Seq::<Seq<u8>>::empty());
        assert(text@ =~= ascii_text(Seq::<u8>::empty()));
    }
    while i < urls.len()
        invariant
            i <= urls.len(),
            set == EncodeSet::Path,
            text@ == ascii_text(uri_list_of(set, texts(urls@.take(i as int)))),
        decreases urls.len() - i,
    {
        let ghost done = uris_of(set, texts(urls@.take(i as int)));
        let ghost now = uris_of(set, texts(urls@.take(i + 1)));
        let uri = encode_path_to_uri(urls[i].as_str());
        proof {
            assert(now.drop_last() =~= done);
            assert(now.last() == uri_of(set, encode_utf8(urls@[i as int]@)));
        }
        if i > 0 {
            text.append("\n");
            proof {
                reveal_strlit("\n");
                assert("\n"@ =~= ascii_text(seq![0x0au8]));
            }
        }
        text.append(uri.as_str());
        proof {
            if i > 0 {
                assert(text@ =~= ascii_text(joined(done) + seq![0x0au8] + now.last()));
            } else {
                assert(joined(done) =~= Seq::<u8>::empty());
                assert(text@ =~= ascii_text(now.last()));
            }
        }
        i += 1;
    }
    proof {
        assert(urls@.take(i as int) =~= urls@);
        lemma_uri_list_ascii(set, texts(urls@));
        lemma_ascii_text_bytes(uri_list_of(set, texts(urls@)));
    }
    text
}

/// A URI list holds ASCII bytes only.
pub proof fn lemma_uri_list_ascii(set: EncodeSet, paths: Seq<Seq<char>>)
    ensures
        all_ascii(uri_list_of(set, paths)),
    decreases paths.len(),
{
    let uris = uris_of(set, paths);
    if paths.len() == 1 {
        lemma_uri_ascii(set, encode_utf8(paths[0]));
    } else if paths.len() > 1 {
        lemma_uri_list_ascii(set, paths.drop_last());
        assert(uris.drop_last() =~= uris_of(set, paths.drop_last()));
        lemma_uri_ascii(set, encode_utf8(paths.last()));
    }
}

/// Every byte of a percent-encoding is a printable ASCII character.
proof fn lemma_encoded_printable(set: EncodeSet, bytes: Seq<u8>)
    ensures
        forall|i: int|
            0 <= i < percent_encoded(set, bytes).len() ==> 0x20 < #[trigger] percent_encoded(
                set,
                bytes,
            )[i] < 0x7f,
    decreases bytes.len(),
{
    if bytes.len() > 0 {
        lemma_encoded_printable(set, bytes.skip(1));
        let head = encoded_byte(set, bytes[0]);
        let tail = percent_encoded(set, bytes.skip(1));
        let all = percent_encoded(set, bytes);
        assert(all == head + tail);
        assert forall|i: int| 0 <= i < all.len() implies 0x20 < #[trigger] all[i] < 0x7f by {
            if i < head.len() {
                assert(all[i] == head[i]);
            } else {
                assert(all[i] == tail[i - head.len()]);
            }
        }
    }
}

/// Every byte of a URI is a printable ASCII character.
proof fn lemma_uri_printable(set: EncodeSet, path: Seq<u8>)
    ensures
        forall|i: int| 0 <= i < uri_of(set, path).len() ==> 0x20 < #[trigger] uri_of(set, path)[i] < 0x7f,
        uri_of(set, path).len() >= 7,
        has_scheme(uri_of(set, path)),
{
    lemma_encoded_printable(set, path);
    assert(uri_of(set, path).take(7) =~= scheme());
}

/// Entries joined by line feeds are the first of them, a line feed, and the
/// others joined.
proof fn lemma_joined_front(entries: Seq<Seq<u8>>)
    requires
        entries.len() >= 2,
    ensures
        joined(entries) == entries[0] + seq![0x0au8] + joined(entries.skip(1)),
    decreases entries.len(),
{
    let rest = entries.skip(1);
    if entries.len() == 2 {
        assert(entries.drop_last() =~= seq![entries[0]]);
        assert(joined(entries.drop_last()) == entries[0]);
        assert(joined(rest) == entries[1]);
    } else {
        lemma_joined_front(entries.drop_last());
        assert(rest.drop_last() =~= entries.drop_last().skip(1));
        assert(joined(entries) =~= entries[0] + seq![0x0au8] + joined(rest));
    }
}

/// The lines of printable entries joined by line feeds are the entries.
proof fn lemma_lines_of_joined(entries: Seq<Seq<u8>>)
    requires
        forall|k: int| 0 <= k < entries.len() ==> (#[trigger] entries[k]).len() > 0,
        forall|k: int, i: int|
            0 <= k < entries.len() && 0 <= i < entries[k].len() ==> 0x20 < #[trigger] entries[k][i],
    ensures
        lines_of(joined(entries)) == entries,
    decreases entries.len(),
{
    if entries.len() == 1 {
        let only = entries[0];
        lemma_line_end(only, only.len() as int);
        assert(lines_of(only) =~= entries);
    } else if entries.len() >= 2 {
        let first = entries[0];
        let rest = entries.skip(1);
        let text = joined(entries);
        lemma_joined_front(entries);
        lemma_line_end(text, first.len() as int);
        assert(text.take(first.len() as int) =~= first);
        assert(text.skip(first.len() as int + 1) =~= joined(rest));
        assert forall|k: int, i: int|
            0 <= k < rest.len() && 0 <= i < rest[k].len() implies 0x20 < #[trigger] rest[k][i] by {
            assert(rest[k] == entries[k + 1]);
        }
        assert forall|k: int| 0 <= k < rest.len() implies (#[trigger] rest[k]).len() > 0 by {
            assert(rest[k] == entries[k + 1]);
        }
        lemma_lines_of_joined(rest);
        assert(seq![first] + rest =~= entries);
    } else {
        assert(entries =~= Seq::<Seq<u8>>::empty());
    }
}

/// Decoding the URI list of some paths gives the paths back, in order: for
/// all paths under a set that escapes the percent sign, and under the other
/// set for paths none of which spells an escape in its own bytes.
pub proof fn lemma_list_round_trip(set: EncodeSet, paths: Seq<Seq<char>>)
    requires
        set.escapes(0x25) || forall|k: int|
            0 <= k < paths.len() ==> !spells_escape(#[trigger] encode_utf8(paths[k])),
    ensures
        paths_of(lines_of(uri_list_of(set, paths))) == Ok::<Seq<Seq<char>>, ErrorView>(paths),
{
    let uris = uris_of(set, paths);
    assert forall|k: int| 0 <= k < uris.len() implies (#[trigger] uris[k]).len() > 0 by {
        lemma_uri_printable(set, encode_utf8(paths[k]));
    }
    assert forall|k: int, i: int|
        0 <= k < uris.len() && 0 <= i < uris[k].len() implies 0x20 < #[trigger] uris[k][i] by {
        lemma_uri_printable(set, encode_utf8(paths[k]));
    }
    lemma_lines_of_joined(uris);
    lemma_paths_of_uris(set, paths);
}

/// The lines that are the URIs of some paths stand for those paths.
proof fn lemma_paths_of_uris(set: EncodeSet, paths: Seq<Seq<char>>)
    requires
        set.escapes(0x25) || forall|k: int|
            0 <= k < paths.len() ==> !spells_escape(#[trigger] encode_utf8(paths[k])),
    ensures
        paths_of(uris_of(set, paths)) == Ok::<Seq<Seq<char>>, ErrorView>(paths),
    decreases paths.len(),
{
    let uris = uris_of(set, paths);
    if paths.len() == 0 {
        assert(paths =~= Seq::<Seq<char>>::empty());
    } else {
        let rest = paths.skip(1);
        assert(uris.skip(1) =~= uris_of(set, rest));
        if !set.escapes(0x25) {
            assert forall|k: int| 0 <= k < rest.len() implies !spells_escape(
                #[trigger] encode_utf8(rest[k]),
            ) by {
                assert(rest[k] == paths[k + 1]);
            }
        }
        lemma_paths_of_uris(set, rest);
        lemma_uri_printable(set, encode_utf8(paths[0]));
        lemma_path_round_trip(set, paths[0]);
        assert(seq![paths[0]] + rest =~= paths);
    }
}

} // verus!
