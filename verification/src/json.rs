//! Reading single facts out of JSON texts.

use vstd::prelude::*;

use crate::text;

verus! {

/// The string at the member `inner` of the member `outer` of a JSON text, if the text is JSON and
/// holds a string there.
pub uninterp spec fn json_member_text(
    json: Seq<char>,
    outer: Seq<char>,
    inner: Seq<char>,
) -> Option<Seq<char>>;

/// The strings of a JSON text that is an array of strings.
pub uninterp spec fn json_string_list(json: Seq<char>) -> Option<Seq<Seq<char>>>;

/// The texts of an optional list.
pub open spec fn opt_texts(value: Option<Vec<String>>) -> Option<Seq<Seq<char>>> {
    match value {
        Some(list) => Some(text::texts(list@)),
        None => None,
    }
}

/// `serde_json::from_str` of a value, then `Value::get` of two members and `Value::as_str`.
#[verifier::external_body]
pub(crate) fn member_text(json: &str, outer: &str, inner: &str) -> (out: Option<String>)
    ensures
        text::opt_text(out) == json_member_text(json@, outer@, inner@),
{
    let value: serde_json::Value = serde_json::from_str(json).ok()?;
    Some(value.get(outer)?.get(inner)?.as_str()?.to_owned())
}

/// `serde_json::from_str` of a list of strings.
#[verifier::external_body]
pub(crate) fn parse_string_list(json: &str) -> (out: Option<Vec<String>>)
    ensures
        opt_texts(out) == json_string_list(json@),
{
    serde_json::from_str(json).ok()
}

} // verus!
