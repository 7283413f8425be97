//! Conversions between bytes and text: UTF-8 and the URL-safe base64 alphabet without padding.

use vstd::prelude::*;

verus! {

/// The text that `String::from_utf8_lossy` reads in a run of bytes, valid or not.
pub uninterp spec fn lossy_text(bytes: Seq<u8>) -> Seq<char>;

/// The bytes of an optional buffer.
pub open spec fn opt_bytes(value: Option<Vec<u8>>) -> Option<Seq<u8>> {
    match value {
        Some(bytes) => Some(bytes@),
        None => None,
    }
}

/// The text of valid UTF-8 bytes.
pub open spec fn utf8_text(bytes: Seq<u8>) -> Option<Seq<char>> {
    if vstd::utf8::valid_utf8(bytes) {
        Some(vstd::utf8::decode_utf8(bytes))
    } else {
        None
    }
}

/// `String::from_utf8_lossy` of the standard library: bytes that are valid UTF-8 give exactly
/// their text; the replacement of invalid bytes is left to the standard library.
#[verifier::external_body]
pub(crate) fn text_from_lossy(bytes: &[u8]) -> (out: String)
    ensures
        out@ == lossy_text(bytes@),
        vstd::utf8::valid_utf8(bytes@) ==> out@ == vstd::utf8::decode_utf8(bytes@),
{
    String::from_utf8_lossy(bytes).into_owned()
}

/// `std::str::from_utf8` of the standard library: the text of valid UTF-8, nothing otherwise.
#[verifier::external_body]
pub(crate) fn text_from_utf8(bytes: &[u8]) -> (out: Option<String>)
    ensures
        crate::text::opt_text(out) == utf8_text(bytes@),
{
    match std::str::from_utf8(bytes) {
        Ok(text) => Some(text.to_owned()),
        Err(_) => None,
    }
}

/// The text that the URL-safe base64 engine without padding writes for a run of bytes.
pub uninterp spec fn base64url_text(bytes: Seq<u8>) -> Seq<char>;

/// The bytes that the URL-safe base64 engine without padding reads in a text, if it accepts it.
pub uninterp spec fn base64url_bytes(text: Seq<char>) -> Option<Seq<u8>>;

/// A character of the URL-safe base64 alphabet.
pub open spec fn is_base64url_char(c: char) -> bool {
    ||| 'A' <= c && c <= 'Z'
    ||| 'a' <= c && c <= 'z'
    ||| '0' <= c && c <= '9'
    ||| c == '-'
    ||| c == '_'
}

/// `base64::Engine::encode` of the engine `URL_SAFE_NO_PAD`: the text consists of characters of
/// the URL-safe alphabet, and the same engine decodes it to the bytes again.
#[verifier::external_body]
pub(crate) fn base64url_encode(bytes: &[u8]) -> (out: String)
    ensures
        out@ == base64url_text(bytes@),
        base64url_bytes(out@) == Some(bytes@),
        forall|i: int| 0 <= i < out@.len() ==> is_base64url_char(#[trigger] out@[i]),
{
    base64::Engine::encode(&base64::engine::general_purpose::URL_SAFE_NO_PAD, bytes)
}

/// `base64::Engine::decode` of the engine `URL_SAFE_NO_PAD`: the decoded bytes, or nothing for a
/// text that is no such encoding.
#[verifier::external_body]
pub(crate) fn base64url_decode(text: &str) -> (out: Option<Vec<u8>>)
    ensures
        opt_bytes(out) == base64url_bytes(text@),
{
    base64::Engine::decode(&base64::engine::general_purpose::URL_SAFE_NO_PAD, text).ok()
}

} // verus!
