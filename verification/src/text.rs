//! Bytes to text.

use vstd::prelude::*;
use vstd::utf8::decode_utf8;
use vstd::utf8::encode_utf8_decode_utf8;
use vstd::utf8::valid_utf8;

use crate::common::Error;
use crate::common::ErrorView;

verus! {

/// The error of `String::from_utf8`.
#[verifier::external_type_specification]
#[verifier::external_body]
pub struct ExFromUtf8Error(std::string::FromUtf8Error);

/// `String::from_utf8`: the text that `bytes` encodes, or an error where
/// they are not UTF-8.
#[verifier::external_body]
fn string_from_utf8(bytes: Vec<u8>) -> (r: Result<String, std::string::FromUtf8Error>)
    ensures
        r is Ok <==> valid_utf8(bytes@),
        r matches Ok(text) ==> text@ == decode_utf8(bytes@),
{
    String::from_utf8(bytes)
}

/// The text that `bytes` encodes in UTF-8, if they encode one.
pub open spec fn text_of(bytes: Seq<u8>) -> Result<Seq<char>, ErrorView> {
    if valid_utf8(bytes) {
        Ok(decode_utf8(bytes))
    } else {
        Err(ErrorView::ConversionFailure)
    }
}

/// What a result that carries text stands for.
pub open spec fn text_result(r: Result<String, Error>) -> Result<Seq<char>, ErrorView> {
    match r {
        Ok(text) => Ok(text@),
        Err(e) => Err(e@),
    }
}

/// Reads `bytes` as UTF-8. Bytes that are not UTF-8 give
/// [`Error::ConversionFailure`].
pub fn decode_text(bytes: Vec<u8>) -> (r: Result<String, Error>)
    ensures
        text_result(r) == text_of(bytes@),
{
    match string_from_utf8(bytes) {
        Ok(text) => Ok(text),
        Err(_) => Err(Error::ConversionFailure),
    }
}

/// Whether two byte strings are the same.
pub fn bytes_eq(a: &[u8], b: &[u8]) -> (same: bool)
    ensures
        same == (a@ == b@),
{
    if a.len() != b.len() {
        return false;
    }
    let mut i: usize = 0;
    while i < a.len()
        invariant
            i <= a.len(),
            a@.len() == b@.len(),
            forall|k: int| 0 <= k < i ==> a@[k] == b@[k],
        decreases a.len() - i,
    {
        if a[i] != b[i] {
            return false;
        }
        i += 1;
    }
    assert(a@ =~= b@);
    true
}

/// Whether `text` begins with `prefix`.
pub open spec fn begins_with(text: Seq<u8>, prefix: Seq<u8>) -> bool {
    prefix.len() <= text.len() && text.take(prefix.len() as int) == prefix
}

/// Whether `text` begins with `prefix`.
pub fn bytes_start_with(text: &[u8], prefix: &[u8]) -> (b: bool)
    ensures
        b == begins_with(text@, prefix@),
{
    if text.len() < prefix.len() {
        return false;
    }
    bytes_eq(vstd::slice::slice_subrange(text, 0, prefix.len()), prefix)
}

/// Whether two texts are the same.
pub fn str_eq(a: &str, b: &str) -> (same: bool)
    ensures
        same == (a@ == b@),
{
    proof {
        encode_utf8_decode_utf8(a@);
        encode_utf8_decode_utf8(b@);
    }
    bytes_eq(a.as_bytes(), b.as_bytes())
}

} // verus!
