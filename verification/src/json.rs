//! JSON text, read and written by `serde_json`: validity, string
//! literals, objects of scalars and arrays of strings.
use vstd::prelude::*;
use crate::scripts::views;
use crate::text::decimal_digits;

verus! {

/// Whether `text` is one complete JSON value, as `serde_json` reads it.
pub uninterp spec fn json_text_valid(text: Seq<char>) -> bool;

/// The lower-case hexadecimal digit of a value below 16.
pub open spec fn hex_digit(d: int) -> char {
    if d < 10 {
        ((d + 48) as u8) as char
    } else {
        ((d + 87) as u8) as char
    }
}

/// How `serde_json` writes one character inside a string literal: a quote
/// and a backslash escaped by a backslash; backspace, form feed, line feed,
/// carriage return and tab by their short escapes; the other control
/// characters below U+0020 as `\u00XX` in lower-case hexadecimal; every
/// other character as it is.
pub open spec fn json_char_escape(c: char) -> Seq<char> {
    if c == '"' {
        seq!['\\', '"']
    } else if c == '\\' {
        seq!['\\', '\\']
    } else if c == '\u{8}' {
        seq!['\\', 'b']
    } else if c == '\u{c}' {
        seq!['\\', 'f']
    } else if c == '\n' {
        seq!['\\', 'n']
    } else if c == '\r' {
        seq!['\\', 'r']
    } else if c == '\t' {
        seq!['\\', 't']
    } else if (c as int) < 32 {
        seq!['\\', 'u', '0', '0', hex_digit((c as int) / 16), hex_digit((c as int) % 16)]
    } else {
        seq![c]
    }
}

/// The characters of `s`, each escaped as `serde_json` writes it.
pub open spec fn json_escaped(s: Seq<char>) -> Seq<char>
    decreases s.len(),
{
    if s.len() == 0 {
        Seq::empty()
    } else {
        json_escaped(s.drop_last()) + json_char_escape(s.last())
    }
}

/// The JSON string literal that `serde_json` writes for `s`: `s` between
/// double quotes, each character escaped (see `json_char_escape`).
pub open spec fn json_string_literal(s: Seq<char>) -> Seq<char> {
    seq!['"'] + json_escaped(s) + seq!['"']
}

/// Whether `text` parses as a JSON value (`serde_json::from_str` into a
/// `serde_json::Value` succeeds). The contract names the answer
/// `json_text_valid(text)`; which texts are valid JSON is not stated.
#[verifier::external_body]
pub(crate) fn is_json_text(text: &str) -> (r: bool)
    ensures
        r == json_text_valid(text@),
{
    serde_json::from_str::<serde_json::Value>(text).is_ok()
}

/// One member `"key":value` of a JSON object, `value` being JSON text.
pub open spec fn json_member(m: (Seq<char>, Seq<char>)) -> Seq<char> {
    json_string_literal(m.0) + seq![':'] + m.1
}

/// The members of a JSON object, separated by commas.
pub open spec fn json_members(ms: Seq<(Seq<char>, Seq<char>)>) -> Seq<char>
    decreases ms.len(),
{
    if ms.len() == 0 {
        Seq::empty()
    } else if ms.len() == 1 {
        json_member(ms[0])
    } else {
        json_members(ms.drop_last()) + seq![','] + json_member(ms.last())
    }
}

/// The compact JSON object with members `ms`, in that order.
pub open spec fn json_object(ms: Seq<(Seq<char>, Seq<char>)>) -> Seq<char> {
    seq!['{'] + json_members(ms) + seq!['}']
}

/// A scalar JSON value: an unsigned number or a string.
#[derive(Debug)]
pub enum JsonScalar {
    Number(u64),
    Text(String),
}

/// The JSON text of a scalar, as `serde_json` writes it: a number in
/// decimal, a string as its literal.
pub open spec fn scalar_json(v: JsonScalar) -> Seq<char> {
    match v {
        JsonScalar::Number(n) => decimal_digits(n as nat),
        JsonScalar::Text(s) => json_string_literal(s@),
    }
}

/// The members of an object, their values as JSON text.
pub open spec fn scalar_members(ms: Seq<(String, JsonScalar)>) -> Seq<(Seq<char>, Seq<char>)> {
    Seq::new(ms.len(), |i: int| (ms[i].0@, scalar_json(ms[i].1)))
}

/// Whether key `a` sorts before key `b` as `String`s do: by their
/// characters' code points, a proper prefix first.
pub open spec fn key_before(a: Seq<char>, b: Seq<char>) -> bool {
    exists|k: int|
        0 <= k <= a.len() && k <= b.len() && #[trigger] a.take(k) == b.take(k) && ((k == a.len() && k < b.len())
            || (k < a.len() && k < b.len() && (a[k] as int) < (b[k] as int)))
}

/// Whether the keys of `ms` are in strictly ascending order.
pub open spec fn keys_ascending(ms: Seq<(Seq<char>, Seq<char>)>) -> bool {
    forall|i: int, j: int| 0 <= i < j < ms.len() ==> key_before(#[trigger] ms[i].0, #[trigger] ms[j].0)
}

/// Writes a JSON object with `serde_json`: the members are put into a
/// `serde_json::Map` and the `Value::Object` is written compactly. The map
/// orders its keys as `String`s sort, so where the keys already ascend the
/// members are written in their order, each key as its string literal and
/// each value as its JSON text; nothing is stated of other key orders.
#[verifier::external_body]
pub(crate) fn json_object_text(members: &Vec<(String, JsonScalar)>) -> (r: String)
    ensures
        keys_ascending(scalar_members(members@)) ==> r@ == json_object(scalar_members(members@)),
{
    let map: serde_json::Map<String, serde_json::Value> = members
        .iter()
        .map(|(k, v)| (k.clone(), match v {
            JsonScalar::Number(n) => serde_json::Value::from(*n),
            JsonScalar::Text(t) => serde_json::Value::from(t.as_str()),
        }))
        .collect();
    serde_json::Value::Object(map).to_string()
}

/// The JSON string literals of `items`, separated by commas.
pub open spec fn json_items(items: Seq<Seq<char>>) -> Seq<char>
    decreases items.len(),
{
    if items.len() == 0 {
        Seq::empty()
    } else if items.len() == 1 {
        json_string_literal(items[0])
    } else {
        json_items(items.drop_last()) + seq![','] + json_string_literal(items.last())
    }
}

/// The compact JSON array of the strings `items`, as `serde_json` writes a
/// slice of strings.
pub open spec fn json_string_array(items: Seq<Seq<char>>) -> Seq<char> {
    seq!['['] + json_items(items) + seq![']']
}

/// Writes a list of strings as a compact JSON array with
/// `serde_json::to_string` (which cannot fail on strings).
#[verifier::external_body]
pub(crate) fn json_array_of_strings(items: &Vec<String>) -> (r: String)
    ensures
        r@ == json_string_array(views(items@)),
{
    serde_json::to_string(items).unwrap_or_default()
}

} // verus!
