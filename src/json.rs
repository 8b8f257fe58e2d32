//! The JSON documents that the classifier reads and writes, through serde_json.
use vstd::prelude::*;

verus! {

/// The `content` member of the JSON object in `body`, where `body` is a JSON
/// document whose top level is an object holding a string under that key.
pub uninterp spec fn content_member_of(body: Seq<u8>) -> Option<Seq<char>>;

/// The member `text` of the first element of the array `choices` in the JSON
/// document `body`: `None` where that path does not lead to a value (also where
/// `body` is no JSON document), `Some(None)` where the value there is not a
/// string, and `Some(Some(t))` where it is the string `t`.
pub uninterp spec fn first_choice_text_of(body: Seq<u8>) -> Option<Option<Seq<char>>>;

/// The JSON string literal that stands for `s`: quoted, with the characters
/// that JSON asks for escaped.
pub uninterp spec fn json_string_of(s: Seq<char>) -> Seq<char>;

/// Relies on serde_json::from_slice to read `body` as a JSON document, then on
/// Value::get to find the member `content` of its top-level object.
#[verifier::external_body]
pub(crate) fn read_content_member(body: &[u8]) -> (r: Option<String>)
    ensures
        r.is_some() == content_member_of(body@).is_some(),
        r matches Some(s) ==> content_member_of(body@) == Some(s@),
{
    match serde_json::from_slice::<serde_json::Value>(body) {
        Ok(doc) => match doc.get("content") {
            Some(serde_json::Value::String(content)) => Some(content.clone()),
            _ => None,
        },
        Err(_) => None,
    }
}

/// Relies on serde_json::from_slice to read `body` as a JSON document (null
/// where it is none), then on Value::get and on indexing a Value by position
/// (null off an array) to find `choices[0].text`.
#[verifier::external_body]
pub(crate) fn read_first_choice_text(body: &[u8]) -> (r: Option<Option<String>>)
    ensures
        r.is_some() == first_choice_text_of(body@).is_some(),
        r matches Some(t) ==> (first_choice_text_of(body@) matches Some(u) && t.is_some()
            == u.is_some()),
        r matches Some(Some(t)) ==> first_choice_text_of(body@) == Some(Some(t@)),
{
    let doc: serde_json::Value = serde_json::from_slice(body).unwrap_or_default();
    let text = match doc.get("choices") {
        Some(choices) => choices[0].get("text"),
        None => None,
    };
    match text {
        Some(serde_json::Value::String(t)) => Some(Some(t.clone())),
        Some(_) => Some(None),
        None => None,
    }
}

/// Relies on serde_json::to_string, which writes a string as a JSON string
/// literal; serialising a `str` does not fail.
#[verifier::external_body]
pub(crate) fn json_string(s: &str) -> (r: String)
    ensures
        r@ == json_string_of(s@),
{
    serde_json::to_string(s).unwrap_or_default()
}

} // verus!
