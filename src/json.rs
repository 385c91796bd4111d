//! What the library relies on from serde_json. A JSON document stays a
//! `serde_json::Value`, opaque here; the names below stand for what serde_json
//! computes from it.

use vstd::prelude::*;

verus! {

#[verifier::external_type_specification]
#[verifier::external_body]
pub struct ExValue(serde_json::Value);

/// The document that `serde_json::from_str` reads from a text, or `None`
/// where the text is not JSON.
pub uninterp spec fn json_document(text: Seq<char>) -> Option<serde_json::Value>;

/// The member under `key` of a JSON object, as `Value::get` finds it.
pub uninterp spec fn json_member(v: serde_json::Value, key: Seq<char>) -> Option<serde_json::Value>;

/// The text of a JSON string, as `Value::as_str` gives it.
pub uninterp spec fn json_str(v: serde_json::Value) -> Option<Seq<char>>;

/// Relies on `serde_json::from_str::<Value>`: the document a text holds,
/// `None` where it does not parse.
#[verifier::external_body]
pub(crate) fn parse_document(text: &str) -> (r: Option<serde_json::Value>)
    ensures
        r == json_document(text@),
{
    serde_json::from_str::<serde_json::Value>(text).ok()
}

/// Relies on `serde_json::Value::get` with a string key: the member of an
/// object under that key.
#[verifier::external_body]
pub(crate) fn member(v: &serde_json::Value, key: &str) -> (r: Option<serde_json::Value>)
    ensures
        r == json_member(*v, key@),
{
    v.get(key).cloned()
}

/// Relies on `serde_json::Value::as_str`: the text of a JSON string.
#[verifier::external_body]
pub(crate) fn string_text(v: &serde_json::Value) -> (r: Option<String>)
    ensures
        r.is_some() == json_str(*v).is_some(),
        r.is_some() ==> r.unwrap()@ == json_str(*v).unwrap(),
{
    v.as_str().map(|s| s.to_string())
}

/// A lower-case hexadecimal digit.
pub open spec fn hex_digit(d: nat) -> char {
    seq!['0', '1', '2', '3', '4', '5', '6', '7', '8', '9', 'a', 'b', 'c', 'd', 'e', 'f'][d as int]
}

/// How a character stands inside a JSON string as serde_json writes it: `"`
/// and `\` behind a backslash, the control characters below U+0020 as
/// `\b`, `\t`, `\n`, `\f`, `\r` or `\u00xx`, anything else as it is.
pub open spec fn escaped_char(c: char) -> Seq<char> {
    let u = c as u32;
    if c == '"' {
        seq!['\\', '"']
    } else if c == '\\' {
        seq!['\\', '\\']
    } else if u == 0x8 {
        seq!['\\', 'b']
    } else if u == 0x9 {
        seq!['\\', 't']
    } else if u == 0xa {
        seq!['\\', 'n']
    } else if u == 0xc {
        seq!['\\', 'f']
    } else if u == 0xd {
        seq!['\\', 'r']
    } else if u < 0x20 {
        seq!['\\', 'u', '0', '0', hex_digit((u / 16) as nat), hex_digit((u % 16) as nat)]
    } else {
        seq![c]
    }
}

/// The characters of `s`, each escaped.
pub open spec fn escaped(s: Seq<char>) -> Seq<char>
    decreases s.len(),
{
    if s.len() == 0 {
        seq![]
    } else {
        escaped(s.drop_last()) + escaped_char(s.last())
    }
}

/// `s` written as a JSON string literal.
pub open spec fn json_quoted(s: Seq<char>) -> Seq<char> {
    seq!['"'] + escaped(s) + seq!['"']
}

/// Relies on `serde_json::to_string` on a `str`: the text as a JSON string
/// literal, escaped as `escaped_char` says (`format_escaped_str`). The call
/// has an error type, but its only source of errors is the writer, here a
/// `Vec`, which does not fail.
#[verifier::external_body]
pub(crate) fn quote(s: &str) -> (r: Option<String>)
    ensures
        r.is_some(),
        r.unwrap()@ == json_quoted(s@),
{
    serde_json::to_string(s).ok()
}

} // verus!
