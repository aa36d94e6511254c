//! A model of JSON values, read from text by serde_json.
use vstd::prelude::*;

verus! {

/// A JSON value, with numbers kept in their textual form. The members of an
/// object read from text are ordered by key, and a key written twice keeps
/// its last value.
#[derive(Debug)]
pub enum JsonValue {
    Null,
    Bool(bool),
    Number(String),
    Str(String),
    Array(Vec<JsonValue>),
    Object(Vec<(String, JsonValue)>),
}

#[verifier::external_type_specification]
#[verifier::external_body]
pub struct ExJsonError(serde_json::Error);

#[verifier::external_type_specification]
#[verifier::external_body]
pub struct ExJsonValue(serde_json::Value);

/// The JSON value that a text holds, or `None` where the text is not one
/// well-formed JSON value.
pub uninterp spec fn json_of(text: Seq<char>) -> Option<JsonValue>;

/// The hexadecimal digit of `n`, in lower case.
pub open spec fn hex_digit(n: u32) -> char {
    seq!['0', '1', '2', '3', '4', '5', '6', '7', '8', '9', 'a', 'b', 'c', 'd', 'e', 'f'][n as int]
}

/// How one character is written inside a JSON string literal: a quote and a
/// backslash are escaped, the control characters below U+0020 are written as
/// `\b`, `\t`, `\n`, `\f`, `\r` or `\u00xx`, and every other character is
/// written as it is.
pub open spec fn escaped_char(c: char) -> Seq<char> {
    if c == '"' {
        seq!['\\', '"']
    } else if c == '\\' {
        seq!['\\', '\\']
    } else if c == '\u{8}' {
        seq!['\\', 'b']
    } else if c == '\t' {
        seq!['\\', 't']
    } else if c == '\n' {
        seq!['\\', 'n']
    } else if c == '\u{c}' {
        seq!['\\', 'f']
    } else if c == '\r' {
        seq!['\\', 'r']
    } else if (c as u32) < 0x20 {
        seq!['\\', 'u', '0', '0', hex_digit((c as u32) / 16), hex_digit((c as u32) % 16)]
    } else {
        seq![c]
    }
}

/// The characters of `s`, each written as [`escaped_char`] says.
pub open spec fn escaped(s: Seq<char>) -> Seq<char>
    decreases s.len(),
{
    if s.len() == 0 {
        Seq::empty()
    } else {
        escaped(s.drop_last()) + escaped_char(s.last())
    }
}

/// The JSON string literal that writes `s`.
pub open spec fn json_quoted(s: Seq<char>) -> Seq<char> {
    seq!['"'] + escaped(s) + seq!['"']
}

/// Relies on `serde_json::from_str::<serde_json::Value>`: it reads the whole
/// text as one JSON value, or fails; what it reads depends on the text alone.
#[verifier::external_body]
pub(crate) fn parse_json(text: &str) -> (r: Result<JsonValue, serde_json::Error>)
    ensures
        r is Ok <==> json_of(text@) is Some,
        r is Ok ==> json_of(text@) == Some(r->Ok_0),
{
    serde_json::from_str::<serde_json::Value>(text).map(JsonValue::from_value)
}

/// Relies on `serde_json::to_string` on a `str`: it writes the string,
/// escaped as `format_escaped_str` does, between quotes into a `Vec`, whose
/// writes never fail, so it always succeeds.
#[verifier::external_body]
pub(crate) fn quote_json(s: &str) -> (r: Result<String, serde_json::Error>)
    ensures
        r is Ok,
        r->Ok_0@ == json_quoted(s@),
{
    serde_json::to_string(s)
}

impl JsonValue {
    /// Moves a value parsed by serde_json into this model, variant for
    /// variant; object members keep the order of serde_json's map.
    #[verifier::external_body]
    fn from_value(v: serde_json::Value) -> JsonValue {
        match v {
            serde_json::Value::Null => JsonValue::Null,
            serde_json::Value::Bool(b) => JsonValue::Bool(b),
            serde_json::Value::Number(n) => JsonValue::Number(n.to_string()),
            serde_json::Value::String(s) => JsonValue::Str(s),
            serde_json::Value::Array(a) => JsonValue::Array(a.into_iter().map(JsonValue::from_value).collect()),
            serde_json::Value::Object(m) => JsonValue::Object(m.into_iter().map(|(k, x)| (k, JsonValue::from_value(x))).collect()),
        }
    }
}

} // verus!
