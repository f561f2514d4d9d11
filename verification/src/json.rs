//! JSON, as far as this crate deals with it.
//!
//! JSON text is read and written by `serde_json`. Where a document has to
//! be looked into, it is copied into a [`JsonValue`], a tree of plain
//! values; where it is only passed on, it stays a `serde_json::Value`.

use crate::text::{opt_chars, str_eq};
use vstd::prelude::*;
use vstd::string::*;

verus! {

/// A JSON value of `serde_json`, carried as it is.
#[verifier::external_type_specification]
#[verifier::external_body]
pub struct ExJsonValue(serde_json::Value);

/// `Clone::clone` of `serde_json::Value`, which the type derives.
/// Trusted: the copy is the value.
pub assume_specification[ <serde_json::Value as Clone>::clone ](
    value: &serde_json::Value,
) -> (copy: serde_json::Value)
    ensures
        copy == *value,
;

/// A JSON document as a tree of plain values.
#[derive(Debug, PartialEq, Eq)]
pub enum JsonValue {
    Null,
    Bool(bool),
    /// A number: its value where it is a whole number from 0 to 2^64 - 1.
    Number(Option<u64>),
    String(String),
    Array(Vec<JsonValue>),
    /// The members of an object. In a tree that was read from text they
    /// come in the order in which `serde_json` keeps them, sorted by key,
    /// and no key comes twice: of two members with one key in the text
    /// the last is kept. A tree that is built by hand may hold a key
    /// twice; a lookup then finds the first.
    Object(Vec<JsonMember>),
}

/// One member of a JSON object.
#[derive(Debug, PartialEq, Eq)]
pub struct JsonMember {
    pub key: String,
    pub value: JsonValue,
}

/// What a `serde_json::Value` holds, as a tree.
pub uninterp spec fn json_contents(value: serde_json::Value) -> JsonValue;

/// What `serde_json` writes for a value, with indentation: the bytes, or
/// the text of the error.
pub uninterp spec fn json_pretty(value: serde_json::Value) -> Result<Seq<u8>, Seq<char>>;

/// What `serde_json` reads from text: the document, or the text of the
/// syntax error.
pub uninterp spec fn json_read_text(text: Seq<char>) -> Result<JsonValue, Seq<char>>;

/// What `serde_json` reads from bytes: the document, or the text of the
/// syntax error.
pub uninterp spec fn json_read(bytes: Seq<u8>) -> Result<JsonValue, Seq<char>>;

/// What `serde_json` writes for a document, with indentation: the bytes,
/// or the text of the error.
pub uninterp spec fn json_written(doc: JsonValue) -> Result<Seq<u8>, Seq<char>>;

/// What `serde_json` writes for a value on one line: the text, or the
/// text of the error.
pub uninterp spec fn json_text(value: serde_json::Value) -> Result<Seq<char>, Seq<char>>;

/// The view of what writing a value as text gave.
pub open spec fn text_view(res: Result<String, String>) -> Result<Seq<char>, Seq<char>> {
    match res {
        Ok(text) => Ok(text@),
        Err(m) => Err(m@),
    }
}

/// The view of what reading a document gave.
pub open spec fn read_view(res: Result<JsonValue, String>) -> Result<JsonValue, Seq<char>> {
    match res {
        Ok(doc) => Ok(doc),
        Err(m) => Err(m@),
    }
}

/// The view of what writing a document gave.
pub open spec fn written_view(res: Result<Vec<u8>, String>) -> Result<Seq<u8>, Seq<char>> {
    match res {
        Ok(bytes) => Ok(bytes@),
        Err(m) => Err(m@),
    }
}

/// Calls `serde_json::from_str` for a `serde_json::Value` and hands back
/// the value, or the text of the error. Trusted: the outcome is a function
/// of the text alone.
#[verifier::external_body]
pub(crate) fn json_from_text(text: &str) -> (res: Result<serde_json::Value, String>)
    ensures
        match res {
            Ok(value) => json_read_text(text@) == Ok::<JsonValue, Seq<char>>(json_contents(value)),
            Err(m) => json_read_text(text@) == Err::<JsonValue, Seq<char>>(m@),
        },
{
    match serde_json::from_str::<serde_json::Value>(text) {
        Ok(value) => Ok(value),
        Err(e) => Err(e.to_string()),
    }
}

/// Calls `serde_json::to_string` on `value` and hands back the text, or
/// the text of the error. Trusted: the outcome is a function of the value
/// alone.
#[verifier::external_body]
pub(crate) fn json_to_text(value: &serde_json::Value) -> (res: Result<String, String>)
    ensures
        text_view(res) == json_text(*value),
{
    match serde_json::to_string(value) {
        Ok(text) => Ok(text),
        Err(e) => Err(e.to_string()),
    }
}

/// Copies a `serde_json::Value` into a tree, variant by variant; a number
/// is asked for its value with `Number::as_u64`, and the members of an
/// object come in the order in which `serde_json` walks them. Trusted:
/// the tree is a function of the value alone; it is what the value is
/// said to hold.
#[verifier::external_body]
pub(crate) fn json_tree(value: &serde_json::Value) -> (tree: JsonValue)
    ensures
        tree == json_contents(*value),
{
    match value {
        serde_json::Value::Null => JsonValue::Null,
        serde_json::Value::Bool(b) => JsonValue::Bool(*b),
        serde_json::Value::Number(n) => JsonValue::Number(n.as_u64()),
        serde_json::Value::String(s) => JsonValue::String(s.clone()),
        serde_json::Value::Array(items) => JsonValue::Array(items.iter().map(json_tree).collect()),
        serde_json::Value::Object(members) => JsonValue::Object(
            members
                .iter()
                .map(|(k, v)| JsonMember { key: k.clone(), value: json_tree(v) })
                .collect(),
        ),
    }
}

/// The value of the first member with the key `key`.
pub open spec fn member_value(members: Seq<JsonMember>, key: Seq<char>) -> Option<JsonValue>
    decreases members.len(),
{
    if members.len() == 0 {
        None
    } else if members[0].key@ == key {
        Some(members[0].value)
    } else {
        member_value(members.skip(1), key)
    }
}

/// An optional string member: `Some(None)` where the key is missing or
/// null, `Some(Some(..))` where it holds a string, `None` where it holds
/// anything else.
pub open spec fn optional_text(members: Seq<JsonMember>, key: Seq<char>) -> Option<
    Option<Seq<char>>,
> {
    match member_value(members, key) {
        None => Some(None),
        Some(JsonValue::Null) => Some(None),
        Some(JsonValue::String(s)) => Some(Some(s@)),
        Some(_) => None,
    }
}

/// An optional whole-number member, read like [`optional_text`].
pub open spec fn optional_unsigned(members: Seq<JsonMember>, key: Seq<char>) -> Option<
    Option<u64>,
> {
    match member_value(members, key) {
        None => Some(None),
        Some(JsonValue::Null) => Some(None),
        Some(JsonValue::Number(Some(n))) => Some(Some(n)),
        Some(_) => None,
    }
}

/// A string member that has to be there.
pub open spec fn required_text(members: Seq<JsonMember>, key: Seq<char>) -> Option<Seq<char>> {
    match member_value(members, key) {
        Some(JsonValue::String(s)) => Some(s@),
        _ => None,
    }
}

/// A whole-number member that has to be there.
pub open spec fn required_unsigned(members: Seq<JsonMember>, key: Seq<char>) -> Option<u64> {
    match member_value(members, key) {
        Some(JsonValue::Number(Some(n))) => Some(n),
        _ => None,
    }
}

/// The value of the first member with the key `key`.
pub fn find_member<'a>(members: &'a Vec<JsonMember>, key: &str) -> (found: Option<&'a JsonValue>)
    ensures
        match found {
            Some(v) => member_value(members@, key@) == Some(*v),
            None => member_value(members@, key@) is None,
        },
{
    let mut i: usize = 0;
    proof {
        assert(members@.skip(0) =~= members@);
    }
    while i < members.len()
        invariant
            i <= members.len(),
            member_value(members@, key@) == member_value(members@.skip(i as int), key@),
        decreases members.len() - i,
    {
        proof {
            assert(members@.skip(i as int)[0] == members@[i as int]);
            assert(members@.skip(i as int).skip(1) =~= members@.skip(i + 1));
        }
        if str_eq(members[i].key.as_str(), key) {
            return Some(&members[i].value);
        }
        i = i + 1;
    }
    None
}

/// Reads an optional string member.
pub fn text_member(members: &Vec<JsonMember>, key: &str) -> (res: Option<Option<String>>)
    ensures
        match res {
            Some(t) => optional_text(members@, key@) == Some(opt_chars(t)),
            None => optional_text(members@, key@) is None,
        },
{
    match find_member(members, key) {
        None => Some(None),
        Some(JsonValue::Null) => Some(None),
        Some(JsonValue::String(s)) => Some(Some(s.clone())),
        Some(_) => None,
    }
}

/// Reads an optional whole-number member.
pub fn unsigned_member(members: &Vec<JsonMember>, key: &str) -> (res: Option<Option<u64>>)
    ensures
        res == optional_unsigned(members@, key@),
{
    match find_member(members, key) {
        None => Some(None),
        Some(JsonValue::Null) => Some(None),
        Some(JsonValue::Number(Some(n))) => Some(Some(*n)),
        Some(_) => None,
    }
}

/// Reads a string member that has to be there.
pub fn required_text_member(members: &Vec<JsonMember>, key: &str) -> (res: Option<String>)
    ensures
        opt_chars(res) == required_text(members@, key@),
{
    match find_member(members, key) {
        Some(JsonValue::String(s)) => Some(s.clone()),
        _ => None,
    }
}

/// Reads a whole-number member that has to be there.
pub fn required_unsigned_member(members: &Vec<JsonMember>, key: &str) -> (res: Option<u64>)
    ensures
        res == required_unsigned(members@, key@),
{
    match find_member(members, key) {
        Some(JsonValue::Number(Some(n))) => Some(*n),
        _ => None,
    }
}

/// Calls `serde_json::from_slice` for a `serde_json::Value` and hands
/// back the value, or the text of the error. Trusted: the outcome is a
/// function of the bytes alone.
#[verifier::external_body]
pub(crate) fn json_from_bytes(bytes: &[u8]) -> (res: Result<serde_json::Value, String>)
    ensures
        match res {
            Ok(value) => json_read(bytes@) == Ok::<JsonValue, Seq<char>>(json_contents(value)),
            Err(m) => json_read(bytes@) == Err::<JsonValue, Seq<char>>(m@),
        },
{
    match serde_json::from_slice::<serde_json::Value>(bytes) {
        Ok(value) => Ok(value),
        Err(e) => Err(e.to_string()),
    }
}

/// Calls `serde_json::to_vec_pretty` on `value` and hands back the bytes,
/// or the text of the error. Trusted: the outcome is a function of the
/// value alone.
#[verifier::external_body]
pub(crate) fn json_to_pretty_bytes(value: &serde_json::Value) -> (res: Result<Vec<u8>, String>)
    ensures
        written_view(res) == json_pretty(*value),
{
    match serde_json::to_vec_pretty(value) {
        Ok(bytes) => Ok(bytes),
        Err(e) => Err(e.to_string()),
    }
}

/// Copies a tree into a `serde_json::Value`, variant by variant; a
/// number goes through `Value::from` for an optional `u64`. Trusted: the value is a function
/// of the tree alone, so what `serde_json` writes for it is what it is
/// said to write for the tree.
#[verifier::external_body]
pub(crate) fn json_value(tree: &JsonValue) -> (value: serde_json::Value)
    ensures
        json_pretty(value) == json_written(*tree),
{
    match tree {
        JsonValue::Null => serde_json::Value::Null,
        JsonValue::Bool(b) => serde_json::Value::Bool(*b),
        JsonValue::Number(n) => serde_json::Value::from(*n),
        JsonValue::String(s) => serde_json::Value::String(s.clone()),
        JsonValue::Array(items) => serde_json::Value::Array(items.iter().map(json_value).collect()),
        JsonValue::Object(members) => serde_json::Value::Object(
            members.iter().map(|m| (m.key.clone(), json_value(&m.value))).collect(),
        ),
    }
}

/// Reads JSON bytes into a tree: the document that `serde_json` reads
/// from them, or the text of its syntax error.
pub(crate) fn parse_json_bytes(bytes: &[u8]) -> (res: Result<JsonValue, String>)
    ensures
        read_view(res) == json_read(bytes@),
{
    match json_from_bytes(bytes) {
        Ok(value) => Ok(json_tree(&value)),
        Err(m) => Err(m),
    }
}

/// Writes a tree as indented JSON text: the bytes that `serde_json`
/// writes for it, or the text of its error.
pub(crate) fn write_json_pretty(tree: &JsonValue) -> (res: Result<Vec<u8>, String>)
    ensures
        written_view(res) == json_written(*tree),
{
    let value = json_value(tree);
    json_to_pretty_bytes(&value)
}

/// Reads JSON text into a tree: the document that `serde_json` reads
/// from it, or the text of its syntax error.
pub(crate) fn parse_json(text: &str) -> (res: Result<JsonValue, String>)
    ensures
        read_view(res) == json_read_text(text@),
{
    match json_from_text(text) {
        Ok(value) => Ok(json_tree(&value)),
        Err(m) => Err(m),
    }
}

} // verus!
