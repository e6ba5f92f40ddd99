//! The serde_json readings this crate relies on. Each one parses the text
//! and looks a value up by JSON pointer; its result is named, since it
//! depends on the text and the pointer alone.
use vstd::prelude::*;
use serde_json::Value;

verus! {

/// The text of an optional string.
pub open spec fn opt_view(o: Option<String>) -> Option<Seq<char>> {
    match o {
        Some(s) => Some(s@),
        None => None,
    }
}

/// Whether the text is one well-formed JSON document.
pub uninterp spec fn json_parses(text: Seq<char>) -> bool;

/// A lowercase hexadecimal digit.
pub open spec fn hex_digit(n: u32) -> char
    recommends
        n < 16,
{
    seq!['0', '1', '2', '3', '4', '5', '6', '7', '8', '9', 'a', 'b', 'c', 'd', 'e', 'f'][n as int]
}

/// How a character is written inside a JSON string: quote and backslash
/// after a backslash, the usual short escapes, other control characters as
/// `\u00XX`, everything else as itself.
pub open spec fn json_escape_char(c: char) -> Seq<char> {
    if c == '"' {
        seq!['\\', '"']
    } else if c == '\\' {
        seq!['\\', '\\']
    } else if c == '\x08' {
        seq!['\\', 'b']
    } else if c == '\t' {
        seq!['\\', 't']
    } else if c == '\n' {
        seq!['\\', 'n']
    } else if c == '\x0c' {
        seq!['\\', 'f']
    } else if c == '\r' {
        seq!['\\', 'r']
    } else if (c as u32) < 32 {
        seq!['\\', 'u', '0', '0', hex_digit(c as u32 / 16), hex_digit(c as u32 % 16)]
    } else {
        seq![c]
    }
}

pub open spec fn json_escaped(s: Seq<char>) -> Seq<char>
    decreases s.len(),
{
    if s.len() == 0 {
        Seq::empty()
    } else {
        json_escaped(s.drop_last()) + json_escape_char(s.last())
    }
}

/// The JSON string literal that denotes `s`, as serde_json writes it.
pub open spec fn json_string_literal(s: Seq<char>) -> Seq<char> {
    seq!['"'] + json_escaped(s) + seq!['"']
}

/// The string found in the document `text` at `pointer`, if there is one.
pub uninterp spec fn json_str_at(text: Seq<char>, pointer: Seq<char>) -> Option<Seq<char>>;

/// The integer (fitting in `i64`) found in `text` at `pointer`, if any.
pub uninterp spec fn json_i64_at(text: Seq<char>, pointer: Seq<char>) -> Option<i64>;

/// The length of the array found in `text` at `pointer`, if there is one.
pub uninterp spec fn json_len_at(text: Seq<char>, pointer: Seq<char>) -> Option<nat>;

/// The string found at `inner` within element `index` of the array found in
/// `text` at `pointer`, if there is one.
pub uninterp spec fn json_item_str_at(
    text: Seq<char>,
    pointer: Seq<char>,
    index: nat,
    inner: Seq<char>,
) -> Option<Seq<char>>;

/// Relies on serde_json::from_str into a `Value`: whether it succeeds depends
/// on the text alone.
#[verifier::external_body]
pub(crate) fn is_json(text: &str) -> (r: bool)
    ensures
        r == json_parses(text@),
{
    serde_json::from_str::<Value>(text).is_ok()
}

/// Relies on serde_json::from_str, Value::pointer and Value::as_str: the
/// string at `pointer`; nothing when the text is not JSON.
#[verifier::external_body]
pub(crate) fn str_at(text: &str, pointer: &str) -> (r: Option<String>)
    ensures
        opt_view(r) == json_str_at(text@, pointer@),
        !json_parses(text@) ==> r is None,
{
    let doc = serde_json::from_str::<Value>(text).ok();
    doc.and_then(|v| v.pointer(pointer).and_then(|x| x.as_str()).map(String::from))
}

/// Relies on serde_json::from_str, Value::pointer and Value::as_i64: the
/// integer at `pointer`; nothing when the text is not JSON.
#[verifier::external_body]
pub(crate) fn i64_at(text: &str, pointer: &str) -> (r: Option<i64>)
    ensures
        r == json_i64_at(text@, pointer@),
        !json_parses(text@) ==> r is None,
{
    let doc = serde_json::from_str::<Value>(text).ok();
    doc.and_then(|v| v.pointer(pointer).and_then(|x| x.as_i64()))
}

/// Relies on serde_json::from_str, Value::pointer and Value::as_array: the
/// length of the array at `pointer`; nothing when the text is not JSON.
#[verifier::external_body]
pub(crate) fn len_at(text: &str, pointer: &str) -> (r: Option<usize>)
    ensures
        r is Some == json_len_at(text@, pointer@) is Some,
        r matches Some(n) ==> json_len_at(text@, pointer@) == Some(n as nat),
        !json_parses(text@) ==> r is None,
{
    let doc = serde_json::from_str::<Value>(text).ok();
    doc.and_then(|v| v.pointer(pointer).and_then(|x| x.as_array()).map(|a| a.len()))
}

/// Relies on serde_json::from_str, Value::pointer, Value::get with an index
/// and Value::as_str: the string at `inner` within element `index` of the
/// array at `pointer`.
#[verifier::external_body]
pub(crate) fn item_str_at(text: &str, pointer: &str, index: usize, inner: &str) -> (r: Option<String>)
    ensures
        opt_view(r) == json_item_str_at(text@, pointer@, index as nat, inner@),
{
    let doc = serde_json::from_str::<Value>(text).ok();
    let item = doc.and_then(|v| v.pointer(pointer).and_then(|a| a.get(index)).cloned());
    item.and_then(|e| e.pointer(inner).and_then(|x| x.as_str()).map(String::from))
}

/// Relies on serde_json::to_string on a `str`, which writes the string in
/// quotes with the escapes of its `ESCAPE` table and cannot fail for that type.
#[verifier::external_body]
pub(crate) fn quote_json(s: &str) -> (r: String)
    ensures
        r@ == json_string_literal(s@),
{
    match serde_json::to_string(s) {
        Ok(t) => t,
        Err(_) => String::new(),
    }
}

} // verus!
