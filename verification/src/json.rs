//! What the JSON reader makes of a text: whether it is JSON at all, and the
//! string it holds when it is a single JSON string.
use vstd::prelude::*;

verus! {

/// Name for whether `serde_json::from_str::<serde_json::Value>` reads the text as
/// one JSON value (surrounding whitespace allowed, nothing after it).
pub uninterp spec fn json_valid(s: Seq<char>) -> bool;

/// Name for what `serde_json::from_str::<String>` reads from the text: the
/// decoded string when the text is one JSON string, else nothing.
pub uninterp spec fn json_string_decoded(s: Seq<char>) -> Option<Seq<char>>;

/// Calls `serde_json::from_str::<serde_json::Value>`. Claimed: the result is
/// `json_valid` of the text; the JSON grammar (and the limits of `Value`, such as
/// its nesting depth and number range) is left unstated.
#[verifier::external_body]
pub(crate) fn is_json(s: &str) -> (r: bool)
    ensures
        r == json_valid(s@),
{
    serde_json::from_str::<serde_json::Value>(s).is_ok()
}

/// Calls `serde_json::from_str::<String>`. Claimed: the result is
/// `json_string_decoded` of the text; the decoding of escapes is left unstated.
#[verifier::external_body]
pub(crate) fn json_string(s: &str) -> (r: Option<String>)
    ensures
        json_string_decoded(s@) == match r {
            Some(t) => Some(t@),
            None => None::<Seq<char>>,
        },
{
    serde_json::from_str::<String>(s).ok()
}

/// Name for the string member `key` of the JSON object that the text `doc` holds,
/// as `serde_json::from_str::<serde_json::Value>` followed by `Value::get` and
/// `Value::as_str` finds it: nothing when the text is not JSON, not an object,
/// has no member `key`, or that member is not a string.
pub uninterp spec fn json_member_string(doc: Seq<char>, key: Seq<char>) -> Option<Seq<char>>;

/// Reads `doc` with `serde_json::from_str::<serde_json::Value>` and looks up the
/// member `key` with `Value::get`. Claimed: the result is `json_member_string` of
/// the two texts; how JSON is read is left unstated.
#[verifier::external_body]
pub(crate) fn json_member(doc: &str, key: &str) -> (r: Option<String>)
    ensures
        json_member_string(doc@, key@) == match r {
            Some(t) => Some(t@),
            None => None::<Seq<char>>,
        },
{
    match serde_json::from_str::<serde_json::Value>(doc) {
        Ok(v) => match v.get(key) {
            Some(serde_json::Value::String(t)) => Some(t.clone()),
            _ => None,
        },
        Err(_) => None,
    }
}

/// The lowercase hexadecimal digit of `d` (below 16).
pub open spec fn hex_digit(d: u32) -> char {
    seq!['0', '1', '2', '3', '4', '5', '6', '7', '8', '9', 'a', 'b', 'c', 'd', 'e', 'f'][d as int]
}

/// How `serde_json` writes a character inside a JSON string: a quote and a
/// backslash escaped with a backslash; backspace, tab, line feed, form feed and
/// carriage return as `\b`, `\t`, `\n`, `\f`, `\r`; any other character below
/// U+0020 as `\u00` and two lowercase hexadecimal digits; every other character
/// as it is.
pub open spec fn json_escape(c: char) -> Seq<char> {
    let v = c as u32;
    if c == '"' {
        seq!['\\', '"']
    } else if c == '\\' {
        seq!['\\', '\\']
    } else if v == 0x08 {
        seq!['\\', 'b']
    } else if v == 0x09 {
        seq!['\\', 't']
    } else if v == 0x0A {
        seq!['\\', 'n']
    } else if v == 0x0C {
        seq!['\\', 'f']
    } else if v == 0x0D {
        seq!['\\', 'r']
    } else if v < 0x20 {
        seq!['\\', 'u', '0', '0', hex_digit(v / 16), hex_digit(v % 16)]
    } else {
        seq![c]
    }
}

/// The characters of `s`, each written as inside a JSON string.
pub open spec fn json_escaped(s: Seq<char>) -> Seq<char>
    decreases s.len(),
{
    if s.len() == 0 {
        Seq::empty()
    } else {
        json_escaped(s.drop_last()) + json_escape(s.last())
    }
}

/// The JSON string of `s`: its escaped characters between double quotes.
pub open spec fn json_quoted(s: Seq<char>) -> Seq<char> {
    seq!['"'] + json_escaped(s) + seq!['"']
}

/// Writes a string as a JSON string with `serde_json::to_string` (which cannot
/// fail on a string). Claimed: the result is `json_quoted` of the string, as
/// `format_escaped_str` with its `ESCAPE` table writes it.
#[verifier::external_body]
pub(crate) fn json_quote(s: &str) -> (r: String)
    ensures
        r@ == json_quoted(s@),
{
    serde_json::to_string(s).unwrap_or_default()
}

/// Name for the `Debug` text of the value that `serde_json::from_str` reads from a
/// JSON text (such as `String("a")` or `Number(1)`): nothing when the text is
/// not JSON.
pub uninterp spec fn json_value_debug(text: Seq<char>) -> Option<Seq<char>>;

/// Reads a JSON text with `serde_json::from_str::<serde_json::Value>` and writes
/// the value with `Debug`. Claimed: the result is `json_value_debug` of the text.
#[verifier::external_body]
fn json_debug_of(text: &str) -> (r: Option<String>)
    ensures
        json_value_debug(text@) == match r {
            Some(t) => Some(t@),
            None => None::<Seq<char>>,
        },
{
    match serde_json::from_str::<serde_json::Value>(text) {
        Ok(v) => Some(format!("{:?}", v)),
        Err(_) => None,
    }
}

/// The `Debug` text of the value a JSON text holds, or the text itself when it is
/// not JSON.
pub open spec fn debug_or_text(text: Seq<char>) -> Seq<char> {
    match json_value_debug(text) {
        Some(d) => d,
        None => text,
    }
}

/// The `Debug` text of the value a JSON text holds, or the text itself when it is
/// not JSON.
pub(crate) fn json_debug(text: &str) -> (r: String)
    ensures
        r@ == debug_or_text(text@),
{
    match json_debug_of(text) {
        Some(d) => d,
        None => text.to_owned(),
    }
}

/// Name for whether `serde_json::from_str::<serde_json::Value>` reads the text as
/// a JSON object.
pub uninterp spec fn json_is_object(s: Seq<char>) -> bool;

/// Reads the text with `serde_json::from_str::<serde_json::Value>` and tells
/// whether it is an object. Claimed: the result is `json_is_object` of the text.
#[verifier::external_body]
pub(crate) fn is_json_object(s: &str) -> (r: bool)
    ensures
        r == json_is_object(s@),
{
    matches!(serde_json::from_str::<serde_json::Value>(s), Ok(serde_json::Value::Object(_)))
}

/// Name for how `serde_json::Value`'s `==` compares the values that
/// `serde_json::from_str::<serde_json::Value>` reads from two texts: nothing when
/// either text is not JSON.
pub uninterp spec fn json_value_eq(a: Seq<char>, b: Seq<char>) -> Option<bool>;

/// Reads both texts with `serde_json::from_str::<serde_json::Value>` and compares
/// the values with `==`. Claimed: the result is `json_value_eq` of the two texts;
/// how values compare (member order ignored, numbers by value) is left unstated.
#[verifier::external_body]
pub(crate) fn json_equal(a: &str, b: &str) -> (r: Option<bool>)
    ensures
        r == json_value_eq(a@, b@),
{
    match (serde_json::from_str::<serde_json::Value>(a), serde_json::from_str::<serde_json::Value>(b)) {
        (Ok(x), Ok(y)) => Some(x == y),
        _ => None,
    }
}

} // verus!
