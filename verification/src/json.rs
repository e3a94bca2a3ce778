//! JSON documents, built and read through `serde_json`.
//!
//! A `serde_json::Value` is opaque to the verifier. The contracts in this
//! module describe a value by its compact text, [`json_text`], which is what
//! the value prints as and what is put on the wire.

use vstd::prelude::*;
use crate::text::{decimal, signed_decimal};

verus! {

#[verifier::external_type_specification]
#[verifier::external_body]
pub struct ExJsonValue(serde_json::Value);

#[verifier::external_type_specification]
#[verifier::external_body]
pub struct ExJsonError(serde_json::Error);

/// The compact text of a JSON value.
pub uninterp spec fn json_text(v: serde_json::Value) -> Seq<char>;

/// The compact text of the JSON string whose content is `s`: `s` between
/// double quotes, with the characters that JSON reserves escaped.
pub uninterp spec fn json_string_text(s: Seq<char>) -> Seq<char>;

/// The compact text of the JSON object made from `members`, each a key and the
/// compact text of its value. Of two members with one key the later stays;
/// the members are written in the order of their keys.
pub uninterp spec fn json_object_text(members: Seq<(Seq<char>, Seq<char>)>) -> Seq<char>;

/// The compact text of the document that `text` is parsed to, or `None` where
/// `text` is no JSON document.
pub uninterp spec fn parsed_json(text: Seq<char>) -> Option<Seq<char>>;

/// The compact text of the member `key` of the JSON object with compact text
/// `doc`, or `None` where `doc` is no object or has no such member.
pub uninterp spec fn json_member(doc: Seq<char>, key: Seq<char>) -> Option<Seq<char>>;

/// The number of elements of the JSON array with compact text `doc`, or
/// `None` where `doc` is no array.
pub uninterp spec fn json_array_length(doc: Seq<char>) -> Option<nat>;

/// The content of the JSON string with compact text `doc`, or `None` where
/// `doc` is no string.
pub uninterp spec fn json_string_content(doc: Seq<char>) -> Option<Seq<char>>;

/// The indented text of the JSON value with compact text `doc`.
pub uninterp spec fn json_pretty_text(doc: Seq<char>) -> Seq<char>;

/// The texts of `items`, separated by commas.
pub open spec fn comma_separated(items: Seq<Seq<char>>) -> Seq<char>
    decreases items.len(),
{
    if items.len() == 0 {
        Seq::empty()
    } else if items.len() == 1 {
        items[0]
    } else {
        comma_separated(items.drop_last()) + seq![','] + items.last()
    }
}

/// The compact text of the JSON array whose elements have the compact texts
/// `items`.
pub open spec fn json_array_text(items: Seq<Seq<char>>) -> Seq<char> {
    seq!['['] + comma_separated(items) + seq![']']
}

/// The key and the compact text of each entry.
pub open spec fn member_texts(entries: Seq<(String, serde_json::Value)>) -> Seq<
    (Seq<char>, Seq<char>),
> {
    Seq::new(entries.len(), |i: int| (entries[i].0@, json_text(entries[i].1)))
}

/// The compact text of each value.
pub open spec fn item_texts(items: Seq<serde_json::Value>) -> Seq<Seq<char>> {
    Seq::new(items.len(), |i: int| json_text(items[i]))
}

/// `serde_json::Value::from` on a string slice: the JSON string with the
/// content `s`.
#[verifier::external_body]
pub(crate) fn json_string(s: &str) -> (v: serde_json::Value)
    ensures
        json_text(v) == json_string_text(s@),
{
    serde_json::Value::from(s)
}

/// `serde_json::Value::from` on a `u64`: the JSON number that prints as the
/// decimal notation of `n`.
#[verifier::external_body]
pub(crate) fn json_unsigned(n: u64) -> (v: serde_json::Value)
    ensures
        json_text(v) == decimal(n as nat),
{
    serde_json::Value::from(n)
}

/// `serde_json::Value::from` on an `i64`: the JSON number that prints as the
/// decimal notation of `n`, with a minus sign where `n` is negative.
#[verifier::external_body]
pub(crate) fn json_signed(n: i64) -> (v: serde_json::Value)
    ensures
        json_text(v) == signed_decimal(n as int),
{
    serde_json::Value::from(n)
}

/// Collects the entries into a `serde_json::Map` and wraps it as
/// `serde_json::Value::Object`: the JSON object with these members.
#[verifier::external_body]
pub(crate) fn json_object(entries: Vec<(String, serde_json::Value)>) -> (v: serde_json::Value)
    ensures
        json_text(v) == json_object_text(member_texts(entries@)),
{
    serde_json::Value::Object(entries.into_iter().collect())
}

/// `serde_json::Value::Array`: the JSON array with these elements, in order.
#[verifier::external_body]
pub(crate) fn json_array(items: Vec<serde_json::Value>) -> (v: serde_json::Value)
    ensures
        json_text(v) == json_array_text(item_texts(items@)),
{
    serde_json::Value::Array(items)
}

/// `clone` of a `serde_json::Value`: a value with the same text.
#[verifier::external_body]
pub(crate) fn json_clone(v: &serde_json::Value) -> (c: serde_json::Value)
    ensures
        json_text(c) == json_text(*v),
{
    v.clone()
}

/// `to_string` of a `serde_json::Value`: its compact text.
#[verifier::external_body]
pub(crate) fn json_to_string(v: &serde_json::Value) -> (s: String)
    ensures
        s@ == json_text(*v),
{
    v.to_string()
}

/// `serde_json::to_string_pretty` on a `serde_json::Value`: its indented
/// text. Writing a value out cannot fail.
#[verifier::external_body]
pub(crate) fn json_to_string_pretty(v: &serde_json::Value) -> (s: String)
    ensures
        s@ == json_pretty_text(json_text(*v)),
{
    match serde_json::to_string_pretty(v) {
        Ok(s) => s,
        Err(_) => String::new(),
    }
}

/// `serde_json::from_str` to a `serde_json::Value`: the document that `text`
/// holds, or the parser's error.
#[verifier::external_body]
pub(crate) fn json_parse(text: &str) -> (r: Result<serde_json::Value, serde_json::Error>)
    ensures
        match r {
            Ok(v) => parsed_json(text@) == Some(json_text(v)),
            Err(_) => parsed_json(text@).is_none(),
        },
{
    serde_json::from_str(text)
}

/// `serde_json::Value::get` with a string index: the member `key` where the
/// value is an object that has one.
#[verifier::external_body]
pub(crate) fn json_get<'a>(v: &'a serde_json::Value, key: &str) -> (r: Option<
    &'a serde_json::Value,
>)
    ensures
        match r {
            Some(m) => json_member(json_text(*v), key@) == Some(json_text(*m)),
            None => json_member(json_text(*v), key@).is_none(),
        },
{
    v.get(key)
}

/// `serde_json::Value::as_array` and the length of the vector it gives.
#[verifier::external_body]
pub(crate) fn json_array_len(v: &serde_json::Value) -> (r: Option<usize>)
    ensures
        match r {
            Some(n) => json_array_length(json_text(*v)) == Some(n as nat),
            None => json_array_length(json_text(*v)).is_none(),
        },
{
    match v.as_array() {
        Some(items) => Some(items.len()),
        None => None,
    }
}

/// `serde_json::Value::as_str`, copied into a `String`: the content of a JSON
/// string.
#[verifier::external_body]
pub(crate) fn json_as_string(v: &serde_json::Value) -> (r: Option<String>)
    ensures
        match r {
            Some(s) => json_string_content(json_text(*v)) == Some(s@),
            None => json_string_content(json_text(*v)).is_none(),
        },
{
    match v.as_str() {
        Some(s) => Some(s.to_string()),
        None => None,
    }
}

/// `to_string` of a `serde_json::Error`: the parser's message. Nothing is
/// claimed of its wording.
#[verifier::external_body]
pub(crate) fn json_error_message(error: &serde_json::Error) -> (s: String) {
    error.to_string()
}

} // verus!
