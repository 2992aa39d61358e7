//! JSON values as `serde_json` reads and writes them.
//!
//! A `serde_json::Value` is opaque to the proofs. What it says is the tree
//! that [`json_tree`] names, and the trusted items of this module tie each
//! call into `serde_json` to that tree.

use vstd::prelude::*;

verus! {

/// What a JSON value says. A number that `serde_json` keeps as an integer is
/// that integer; any other number is the text that `serde_json` prints for it.
pub enum Json {
    Null,
    Bool(bool),
    Integer(int),
    Fraction(Seq<char>),
    String(Seq<char>),
    Array(Seq<Json>),
    Object(Map<Seq<char>, Json>),
}

/// `serde_json::Value`, carried without looking inside.
#[verifier::external_type_specification]
#[verifier::external_body]
pub struct ExValue(serde_json::Value);

/// `serde_json::Error`, carried without looking inside.
#[verifier::external_type_specification]
#[verifier::external_body]
pub struct ExJsonError(serde_json::Error);

/// What a `serde_json::Value` holds.
pub uninterp spec fn json_tree(value: serde_json::Value) -> Json;

/// What `serde_json` reads from a text; `None` where it reports an error.
pub uninterp spec fn json_text(text: Seq<char>) -> Option<Json>;

/// What each of a sequence of values holds.
pub open spec fn json_trees(values: Seq<serde_json::Value>) -> Seq<Json> {
    values.map_values(|value: serde_json::Value| json_tree(value))
}

/// What a value that may be absent holds.
pub open spec fn json_tree_opt(value: Option<&serde_json::Value>) -> Option<Json> {
    match value {
        Some(v) => Some(json_tree(*v)),
        None => None,
    }
}

/// The member of an object under `name`; `None` for any other value.
pub open spec fn member_of(tree: Json, name: Seq<char>) -> Option<Json> {
    match tree {
        Json::Object(members) => members.get(name),
        _ => None,
    }
}

/// The digit that stands for `n` in lower-case hexadecimal.
pub open spec fn hex_digit(n: int) -> char {
    if n < 10 {
        (('0' as u32) + n) as char
    } else {
        (('a' as u32) + n - 10) as char
    }
}

/// How one character stands inside a JSON string: the quote, the backslash and
/// the control characters below U+0020 are escaped, all others stand as they are.
pub open spec fn escaped_char(c: char) -> Seq<char> {
    if c == '"' {
        seq!['\\', '"']
    } else if c == '\\' {
        seq!['\\', '\\']
    } else if c as u32 == 0x8 {
        seq!['\\', 'b']
    } else if c as u32 == 0x9 {
        seq!['\\', 't']
    } else if c as u32 == 0xA {
        seq!['\\', 'n']
    } else if c as u32 == 0xC {
        seq!['\\', 'f']
    } else if c as u32 == 0xD {
        seq!['\\', 'r']
    } else if (c as u32) < 0x20 {
        seq!['\\', 'u', '0', '0', hex_digit(c as int / 16), hex_digit(c as int % 16)]
    } else {
        seq![c]
    }
}

/// The characters of `text`, each as it stands inside a JSON string.
pub open spec fn escaped(text: Seq<char>) -> Seq<char>
    decreases text.len(),
{
    if text.len() == 0 {
        Seq::empty()
    } else {
        escaped(text.drop_last()) + escaped_char(text.last())
    }
}

/// `text` as a JSON string, quotes included.
pub open spec fn quoted(text: Seq<char>) -> Seq<char> {
    seq!['"'] + escaped(text) + seq!['"']
}

/// `serde_json::from_str::<Value>`: reads a text as one JSON value. Its result
/// depends on the text alone, and is what [`json_text`] names.
#[verifier::external_body]
pub(crate) fn read_value(text: &str) -> (r: Result<serde_json::Value, serde_json::Error>)
    ensures
        match r {
            Ok(value) => json_text(text@) == Some(json_tree(value)),
            Err(_) => json_text(text@) is None,
        },
{
    serde_json::from_str(text)
}

/// `serde_json::to_string` of a string: the string in quotes, escaped. Writing
/// a string into memory does not fail.
#[verifier::external_body]
pub(crate) fn write_string(text: &str) -> (r: Result<String, serde_json::Error>)
    ensures
        r is Ok,
        r->Ok_0@ == quoted(text@),
{
    serde_json::to_string(text)
}

/// `Value::as_str`: the text of a string, and `None` for any other value.
pub assume_specification[ serde_json::Value::as_str ](value: &serde_json::Value) -> (r: Option<&str>)
    ensures
        match r {
            Some(text) => json_tree(*value) == Json::String(text@),
            None => !(json_tree(*value) is String),
        },
;

/// `Value::as_array`: the items of an array, and `None` for any other value.
pub assume_specification[ serde_json::Value::as_array ](value: &serde_json::Value) -> (r: Option<
    &Vec<serde_json::Value>,
>)
    ensures
        match r {
            Some(items) => json_tree(*value) == Json::Array(json_trees(items@)),
            None => !(json_tree(*value) is Array),
        },
;

/// `Value::is_null`: whether the value is `null`.
pub assume_specification[ serde_json::Value::is_null ](value: &serde_json::Value) -> (r: bool)
    ensures
        r == (json_tree(*value) == Json::Null),
;

/// `Value::as_i64`: an integer that fits in 64 bits, and `None` for any other
/// value.
pub assume_specification[ serde_json::Value::as_i64 ](value: &serde_json::Value) -> (r: Option<i64>)
    ensures
        r == match json_tree(*value) {
            Json::Integer(n) if i64::MIN <= n <= i64::MAX => Some(n as i64),
            _ => None,
        },
;

/// `Value::get` with a string: the member of an object under that name, and
/// `None` for any other value.
#[verifier::external_body]
pub(crate) fn member<'a>(value: &'a serde_json::Value, name: &str) -> (r: Option<
    &'a serde_json::Value,
>)
    ensures
        json_tree_opt(r) == member_of(json_tree(*value), name@),
{
    value.get(name)
}

/// `Value::as_object` and the length of the map it returns: how many members an
/// object has, and `None` for any other value.
#[verifier::external_body]
pub(crate) fn member_count(value: &serde_json::Value) -> (r: Option<usize>)
    ensures
        match r {
            Some(n) => json_tree(*value) matches Json::Object(members) && members.dom().finite()
                && n == members.dom().len(),
            None => !(json_tree(*value) is Object),
        },
{
    value.as_object().map(|members| members.len())
}

} // verus!
