//! The boundary to the JSON parser.
//!
//! Nothing in this file is proved: each item states what the rest of the crate
//! takes on trust from `serde_json`.

use vstd::prelude::*;

verus! {

/// `serde_json::Value`, a parsed JSON document, carried through opaquely.
#[verifier::external_type_specification]
#[verifier::external_body]
pub struct ExJsonValue(serde_json::Value);

/// `serde_json::Error`, carried through opaquely.
#[verifier::external_type_specification]
#[verifier::external_body]
pub struct ExJsonError(serde_json::Error);

/// What `serde_json::from_str` makes of a text: nothing where it refuses the
/// text, which it does unless the text is one JSON document; otherwise the
/// text members of the document that it read (see [`json_text_members`]).
pub uninterp spec fn json_document(text: Seq<char>) -> Option<Map<Seq<char>, Seq<char>>>;

/// What a parsed document holds for this crate: the members of a JSON object
/// whose value is a string, by key. Empty for a document that is not an
/// object. Where the text repeats a key, the parser keeps the last member
/// under it.
pub uninterp spec fn json_text_members(doc: serde_json::Value) -> Map<Seq<char>, Seq<char>>;

/// What `serde_json::to_string` writes for a string: the JSON string literal,
/// quotes included, that reads back as `text`.
pub uninterp spec fn json_string_literal(text: Seq<char>) -> Seq<char>;

/// Parses a text as one JSON document.
///
/// Calls `serde_json::from_str` at type `serde_json::Value`. The parser reads
/// nothing but the text, so the text alone decides whether it succeeds and
/// what the document holds.
#[verifier::external_body]
pub(crate) fn parse_document(text: &str) -> (r: Result<serde_json::Value, serde_json::Error>)
    ensures
        r is Ok <==> json_document(text@) is Some,
        r is Ok ==> json_text_members(r->Ok_0) == json_document(text@)->Some_0,
{
    serde_json::from_str::<serde_json::Value>(text)
}

/// Looks up the string stored under `key`.
///
/// Calls `serde_json::Value::get` with a string index, which finds a member
/// only in an object and only under that exact key, and hands the member to
/// `serde_json::Value::as_str`, which yields the text of a string and nothing
/// for any other kind of value.
#[verifier::external_body]
pub(crate) fn text_member<'a>(doc: &'a serde_json::Value, key: &str) -> (r: Option<&'a str>)
    ensures
        r is Some <==> json_text_members(*doc).contains_key(key@),
        r is Some ==> r.unwrap()@ == json_text_members(*doc)[key@],
{
    doc.get(key)?.as_str()
}

/// Writes a text as a JSON string literal.
///
/// Calls `serde_json::to_string` on a string slice, which quotes and escapes
/// it; the result depends on the text alone. Serialising fails only where a
/// value's own serialiser fails or a map has keys that are not strings, and a
/// string slice is neither, so the call is stated to succeed.
#[verifier::external_body]
pub(crate) fn quote(text: &str) -> (r: Result<String, serde_json::Error>)
    ensures
        r is Ok,
        r->Ok_0@ == json_string_literal(text@),
{
    serde_json::to_string(text)
}

} // verus!
