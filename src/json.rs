//! What the library reads out of JSON text, through serde_json.
use vstd::prelude::*;

verus! {

/// Whether the text is one well-formed JSON document.
pub uninterp spec fn is_json(text: Seq<char>) -> bool;

/// The text of each element, in order, when the text is one JSON array.
pub uninterp spec fn json_items(text: Seq<char>) -> Option<Seq<Seq<char>>>;

/// The string held in the `message` member, when the text is a JSON object
/// that has one.
pub uninterp spec fn message_of(text: Seq<char>) -> Option<Seq<char>>;

/// The text views of a list of strings.
pub open spec fn texts(v: Seq<String>) -> Seq<Seq<char>> {
    v.map_values(|s: String| s@)
}

/// Relies on serde_json::from_str into serde::de::IgnoredAny, which accepts
/// any well-formed JSON document and nothing else.
#[verifier::external_body]
pub(crate) fn check_json(text: &str) -> (r: Result<(), serde_json::Error>)
    ensures
        r is Ok <==> is_json(text@),
{
    serde_json::from_str::<serde::de::IgnoredAny>(text).map(|_| ())
}

/// Relies on serde_json::from_str into a vector of boxed RawValue: it accepts
/// a JSON array only and hands back each element's own text, in order; the
/// empty array gives no element.
#[verifier::external_body]
pub(crate) fn split_items(text: &str) -> (r: Result<Vec<String>, serde_json::Error>)
    ensures
        r is Ok <==> json_items(text@) is Some,
        r is Ok ==> texts(r->Ok_0@) == json_items(text@)->0,
        text@ == "[]"@ ==> r is Ok && r->Ok_0@.len() == 0,
{
    serde_json::from_str::<Vec<Box<serde_json::value::RawValue>>>(text)
        .map(|items| items.into_iter().map(|item| item.get().to_string()).collect())
}

/// Relies on serde_json::from_str into serde_json::Value and on
/// serde_json::from_value into String, applied to the `message` member
/// (indexing a Value gives Null where there is no such member, and Null is no
/// string).
#[verifier::external_body]
pub(crate) fn decode_message(text: &str) -> (r: Result<String, serde_json::Error>)
    ensures
        r is Ok <==> message_of(text@) is Some,
        r is Ok ==> r->Ok_0@ == message_of(text@)->0,
{
    let value: serde_json::Value = serde_json::from_str(text)?;
    serde_json::from_value::<String>(value["message"].clone())
}

} // verus!
