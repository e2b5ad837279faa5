//! JSON text produced and read with `serde_json`.

use vstd::prelude::*;
use crate::text::hex_digit;

verus! {

/// How `serde_json` writes one character inside a string literal: `"` and
/// `\` behind a backslash, the control characters U+0000 to U+001F as
/// `\b`, `\t`, `\n`, `\f`, `\r` or `\u00xx` (lower-case hex), every other
/// character as itself.
pub open spec fn json_char_escape(c: char) -> Seq<char> {
    let u = c as u32;
    if c == '"' {
        seq!['\\', '"']
    } else if c == '\\' {
        seq!['\\', '\\']
    } else if u == 0x08 {
        seq!['\\', 'b']
    } else if u == 0x09 {
        seq!['\\', 't']
    } else if u == 0x0A {
        seq!['\\', 'n']
    } else if u == 0x0C {
        seq!['\\', 'f']
    } else if u == 0x0D {
        seq!['\\', 'r']
    } else if u < 0x20 {
        seq!['\\', 'u', '0', '0', hex_digit((u / 16) as nat), hex_digit((u % 16) as nat)]
    } else {
        seq![c]
    }
}

/// The characters of `s`, each written as [`json_char_escape`] gives it.
pub open spec fn json_escaped(s: Seq<char>) -> Seq<char>
    decreases s.len(),
{
    if s.len() == 0 {
        Seq::empty()
    } else {
        json_escaped(s.drop_last()) + json_char_escape(s.last())
    }
}

/// The JSON string literal of `s`.
pub open spec fn json_string_text(s: Seq<char>) -> Seq<char> {
    seq!['"'] + json_escaped(s) + seq!['"']
}

/// The string value of the top-level field `key` of the JSON document
/// `body`, as `serde_json` reads it: nothing when `body` is not JSON, when the
/// field is missing, or when its value is not a string.
pub uninterp spec fn spec_json_str_field(body: Seq<char>, key: Seq<char>) -> Option<Seq<char>>;

pub open spec fn opt_text(o: Option<String>) -> Option<Seq<char>> {
    match o {
        Some(s) => Some(s@),
        None => None,
    }
}

/// `serde_json::to_string` on a string slice: the string between quotes,
/// escaped by the serializer's escape table (ser.rs, `ESCAPE` and
/// `write_char_escape`). The serializer writes into a `Vec<u8>`, whose writes
/// do not fail, so the call always succeeds.
#[verifier::external_body]
pub fn json_string_literal(s: &str) -> (r: Option<String>)
    ensures
        opt_text(r) == Some(json_string_text(s@)),
{
    serde_json::to_string(s).ok()
}

/// `serde_json::from_str::<Value>` on `body`, then `get(key)` and `as_str()`.
#[verifier::external_body]
pub fn json_str_field(body: &str, key: &str) -> (r: Option<String>)
    ensures
        opt_text(r) == spec_json_str_field(body@, key@),
{
    serde_json::from_str::<serde_json::Value>(body).ok().and_then(
        |v| v.get(key).and_then(|m| m.as_str()).map(|m| m.to_string()),
    )
}

} // verus!
