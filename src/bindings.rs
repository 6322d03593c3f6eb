use vstd::prelude::*;

verus! {

#[verifier::external_type_specification]
#[verifier::external_body]
pub struct ExJsonValue(serde_json::Value);

/// The standard, padded base64 encoding of the UTF-8 bytes of a text.
pub uninterp spec fn base64_of_text(s: Seq<char>) -> Seq<char>;

/// Whether `s` is well-formed JSON text.
pub uninterp spec fn is_json_text(s: Seq<char>) -> bool;

/// A character of the standard base64 alphabet, or the padding `=`.
pub open spec fn is_base64_char(c: char) -> bool {
    ('A' <= c && c <= 'Z') || ('a' <= c && c <= 'z') || ('0' <= c && c <= '9') || c == '+' || c
        == '/' || c == '='
}

/// A character that may stand in an HTTP header value: a tab, or any
/// character from the space on but DEL. A character beyond ASCII is written as
/// bytes of 128 and above, which are all allowed.
pub open spec fn header_char_ok(c: char) -> bool {
    c == '\t' || (' ' <= c && c != '\u{7f}')
}

pub open spec fn valid_header_value(s: Seq<char>) -> bool {
    forall|i: int| 0 <= i < s.len() ==> header_char_ok(#[trigger] s[i])
}

/// Relies on base64's `Engine::encode` with the `STANDARD` engine: it encodes the
/// text's bytes with the alphabet `A-Z a-z 0-9 + /` and pads with `=`.
#[verifier::external_body]
pub(crate) fn base64_standard(s: &str) -> (r: String)
    ensures
        r@ == base64_of_text(s@),
        forall|i: int| 0 <= i < r@.len() ==> is_base64_char(#[trigger] r@[i]),
{
    base64::Engine::encode(&base64::engine::general_purpose::STANDARD, s)
}

/// Relies on `HeaderValue::from_str` of http, as reqwest re-exports it: it
/// accepts a text exactly when every byte is a tab, or at least 32 and not 127.
#[verifier::external_body]
pub(crate) fn header_value_accepted(s: &str) -> (r: bool)
    ensures
        r == valid_header_value(s@),
{
    reqwest::header::HeaderValue::from_str(s).is_ok()
}

/// Relies on `serde_json::from_str` into a `serde_json::Value`: it succeeds on
/// well-formed JSON text and fails on anything else, with a description.
#[verifier::external_body]
pub(crate) fn parse_json_text(s: &str) -> (r: Result<serde_json::Value, String>)
    ensures
        r is Ok == is_json_text(s@),
{
    match serde_json::from_str::<serde_json::Value>(s) {
        Ok(v) => Ok(v),
        Err(e) => Err(e.to_string()),
    }
}

} // verus!
