//! JSON objects as `serde_json` holds them: a map from each key to its
//! value, written back as compact JSON in the order of its keys. The map,
//! parsing and writing are `serde_json`'s; what is merged is decided here.
use vstd::prelude::*;
use crate::posts::strictly_sorted;
use crate::text::{cat2, cat3, join_seq};

verus! {

#[verifier::external_type_specification]
#[verifier::external_body]
pub struct ExJsonValue(serde_json::Value);

#[verifier::external_type_specification]
#[verifier::external_body]
#[verifier::reject_recursive_types(K)]
#[verifier::reject_recursive_types(V)]
pub struct ExJsonMap<K, V>(serde_json::Map<K, V>);

/// What a `serde_json` object map holds: each key, with the compact JSON
/// text of its value.
pub uninterp spec fn json_map_entries(m: serde_json::Map<String, serde_json::Value>) -> Map<
    Seq<char>,
    Seq<char>,
>;

/// A lowercase hexadecimal digit.
pub open spec fn hex_lower(d: int) -> char {
    if d < 10 {
        (d + 48) as char
    } else {
        (d + 87) as char
    }
}

/// How `serde_json` writes one character inside a string: `"` and `\`
/// escaped with a backslash; backspace, tab, line feed, form feed and
/// carriage return as `\b`, `\t`, `\n`, `\f`, `\r`; any other control
/// character below U+0020 as `\u00` and two lowercase hex digits; every
/// other character as it is.
pub open spec fn json_char_escape(c: char) -> Seq<char> {
    let u = c as u32;
    if c == '"' {
        seq!['\\', '"']
    } else if c == '\\' {
        seq!['\\', '\\']
    } else if u == 8 {
        seq!['\\', 'b']
    } else if u == 9 {
        seq!['\\', 't']
    } else if u == 10 {
        seq!['\\', 'n']
    } else if u == 12 {
        seq!['\\', 'f']
    } else if u == 13 {
        seq!['\\', 'r']
    } else if u < 32 {
        seq!['\\', 'u', '0', '0', hex_lower(u as int / 16), hex_lower(u as int % 16)]
    } else {
        seq![c]
    }
}

/// The characters of a text, each escaped as inside a JSON string.
pub open spec fn json_escaped(s: Seq<char>) -> Seq<char>
    decreases s.len(),
{
    if s.len() == 0 {
        Seq::empty()
    } else {
        json_escaped(s.drop_last()) + json_char_escape(s.last())
    }
}

/// The compact JSON text of a string value: the text in double quotes,
/// escaped (see `json_char_escape`).
pub open spec fn json_string_literal(s: Seq<char>) -> Seq<char> {
    seq!['"'] + json_escaped(s) + seq!['"']
}

/// What `serde_json` reads from a text expected to hold an object: its
/// entries; `Err(None)` for a value that is not an object, `Err(Some(message))`
/// for text that is not JSON.
pub uninterp spec fn json_object_parse(text: Seq<char>) -> Result<
    Map<Seq<char>, Seq<char>>,
    Option<Seq<char>>,
>;

/// The keys of a map in increasing order (by code point, the order of
/// `String`, in which `serde_json`'s map keeps them).
pub open spec fn sorted_keys(m: Map<Seq<char>, Seq<char>>) -> Seq<Seq<char>> {
    choose|ks: Seq<Seq<char>>| strictly_sorted(ks) && ks.to_set() == m.dom()
}

/// What `serde_json` writes for an object with these entries: `{`, then
/// each entry in key order as its key's string literal, `:` and the value's
/// text, separated by `,`, then `}`.
pub open spec fn json_object_text(entries: Map<Seq<char>, Seq<char>>) -> Seq<char> {
    seq!['{'] + join_seq(
        sorted_keys(entries).map_values(
            |k: Seq<char>| json_string_literal(k) + seq![':'] + entries[k],
        ),
        seq![','],
    ) + seq!['}']
}

pub open spec fn opt_text(e: Option<String>) -> Option<Seq<char>> {
    match e {
        Some(s) => Some(s@),
        None => None,
    }
}

/// The entries of an empty object.
pub open spec fn no_entries() -> Map<Seq<char>, Seq<char>> {
    Map::empty()
}

/// `serde_json::Map::new`: an object with no entries.
#[verifier::external_body]
pub(crate) fn new_object() -> (r: serde_json::Map<String, serde_json::Value>)
    ensures
        json_map_entries(r) == no_entries(),
{
    serde_json::Map::new()
}

/// `serde_json::from_str::<serde_json::Value>`, read as an object: its map;
/// the parse error's message; or nothing for a value that is not an object.
#[verifier::external_body]
fn parse_object(text: &str) -> (r: Result<serde_json::Map<String, serde_json::Value>, Option<String>>)
    ensures
        match r {
            Ok(m) => json_object_parse(text@) == Ok::<Map<Seq<char>, Seq<char>>, Option<Seq<char>>>(
                json_map_entries(m),
            ),
            Err(e) => json_object_parse(text@) == Err::<Map<Seq<char>, Seq<char>>, Option<Seq<char>>>(
                opt_text(e),
            ),
        },
{
    match serde_json::from_str::<serde_json::Value>(text) {
        Err(e) => Err(Some(e.to_string())),
        Ok(serde_json::Value::Object(map)) => Ok(map),
        Ok(_) => Err(None),
    }
}

/// `serde_json::Map::append`: moves the entries of `other` into `m`; an
/// entry of `other` replaces one of `m` with the same key.
#[verifier::external_body]
fn append_object(
    m: &mut serde_json::Map<String, serde_json::Value>,
    other: serde_json::Map<String, serde_json::Value>,
)
    ensures
        json_map_entries(*final(m)) == json_map_entries(*old(m)).union_prefer_right(
            json_map_entries(other),
        ),
{
    let mut other = other;
    m.append(&mut other);
}

/// `serde_json::Map::insert` of a string value: sets `key` to the text.
#[verifier::external_body]
pub(crate) fn insert_string(
    m: &mut serde_json::Map<String, serde_json::Value>,
    key: String,
    value: String,
)
    ensures
        json_map_entries(*final(m)) == json_map_entries(*old(m)).insert(
            key@,
            json_string_literal(value@),
        ),
{
    m.insert(key, serde_json::Value::String(value));
}

/// The compact JSON text of an object (`Value::Object(m).to_string()`).
#[verifier::external_body]
pub(crate) fn object_text(m: serde_json::Map<String, serde_json::Value>) -> (r: String)
    ensures
        r@ == json_object_text(json_map_entries(m)),
{
    serde_json::Value::Object(m).to_string()
}

/// The error of a form field that must hold a JSON object.
pub open spec fn object_error(field: Seq<char>, e: Option<Seq<char>>) -> Seq<char> {
    match e {
        Some(m) => field + " must be valid JSON: "@ + m,
        None => field + " must be a JSON object"@,
    }
}

/// Adds the entries of the JSON object in `input` to `output` (replacing
/// those with the same keys); an error naming `field`, with `output`
/// unchanged, when `input` is not a JSON object.
pub fn merge_json_object(
    output: &mut serde_json::Map<String, serde_json::Value>,
    input: &str,
    field: &str,
) -> (r: Result<(), String>)
    ensures
        match json_object_parse(input@) {
            Ok(more) => r is Ok && json_map_entries(*final(output)) == json_map_entries(
                *old(output),
            ).union_prefer_right(more),
            Err(e) => r matches Err(m) && m@ == object_error(field@, e) && json_map_entries(
                *final(output),
            ) == json_map_entries(*old(output)),
        },
{
    match parse_object(input) {
        Ok(more) => {
            append_object(output, more);
            Ok(())
        },
        Err(Some(e)) => Err(cat3(field, " must be valid JSON: ", e.as_str())),
        Err(None) => Err(cat2(field, " must be a JSON object")),
    }
}

} // verus!
