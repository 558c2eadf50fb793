//! Reading a JSON document through `serde_json`.
//!
//! What the library reads of a document, the members of its top-level
//! object by kind, is named twice: as a function of the parsed
//! `serde_json::Value`, which the member reads speak of, and as a function
//! of the text, which the parse ties the first to. So every member that is
//! read is a function of the text alone.
use vstd::prelude::*;

verus! {

#[verifier::external_type_specification]
#[verifier::external_body]
pub struct ExJsonValue(serde_json::Value);

#[verifier::external_type_specification]
#[verifier::external_body]
pub struct ExJsonError(serde_json::Error);

/// Whether `serde_json::from_str::<serde_json::Value>` accepts `text`.
pub uninterp spec fn json_parses(text: Seq<char>) -> bool;

/// The members of the top-level object of the JSON text `text` whose value
/// is a non-negative integer that fits in a `u64`, with that integer (empty
/// when the document is not an object).
pub uninterp spec fn json_text_u64_members(text: Seq<char>) -> Map<Seq<char>, u64>;

/// The members of the top-level object of `text` whose value is a string,
/// with that string.
pub uninterp spec fn json_text_str_members(text: Seq<char>) -> Map<Seq<char>, Seq<char>>;

/// The members of the top-level object of `text` whose value is a boolean,
/// with that boolean.
pub uninterp spec fn json_text_bool_members(text: Seq<char>) -> Map<Seq<char>, bool>;

/// The members of the top-level object of `text` whose value is a number,
/// with that number as `serde_json` writes it (`Number`'s `Display`).
pub uninterp spec fn json_text_number_members(text: Seq<char>) -> Map<Seq<char>, Seq<char>>;

/// The members of the object `v` whose value is a non-negative integer that
/// fits in a `u64`, with that integer (empty when `v` is not an object).
pub uninterp spec fn json_u64_members(v: serde_json::Value) -> Map<Seq<char>, u64>;

/// The members of the object `v` whose value is a string, with that string.
pub uninterp spec fn json_str_members(v: serde_json::Value) -> Map<Seq<char>, Seq<char>>;

/// The members of the object `v` whose value is a boolean, with that boolean.
pub uninterp spec fn json_bool_members(v: serde_json::Value) -> Map<Seq<char>, bool>;

/// The members of the object `v` whose value is a number, with that number
/// as `serde_json` writes it.
pub uninterp spec fn json_number_members(v: serde_json::Value) -> Map<Seq<char>, Seq<char>>;

/// The value that `m` holds for `key`, if any.
pub open spec fn lookup<V>(m: Map<Seq<char>, V>, key: Seq<char>) -> Option<V> {
    if m.dom().contains(key) {
        Some(m[key])
    } else {
        None
    }
}

/// Parses `text` as a JSON document (`serde_json::from_str::<Value>`).
/// Trusted: the parse succeeds exactly when `json_parses` holds of the text,
/// and the members of the document, by kind, are those that the `json_text_*`
/// names give for the text (`from_str` depends on its argument alone).
#[verifier::external_body]
pub fn parse_json(text: &str) -> (r: Result<serde_json::Value, serde_json::Error>)
    ensures
        r is Ok <==> json_parses(text@),
        r matches Ok(v) ==> {
            &&& json_u64_members(v) == json_text_u64_members(text@)
            &&& json_str_members(v) == json_text_str_members(text@)
            &&& json_bool_members(v) == json_text_bool_members(text@)
            &&& json_number_members(v) == json_text_number_members(text@)
        },
{
    serde_json::from_str(text)
}

/// The member `key` of the object `v` as a `u64` (`Value::get`, then
/// `Value::as_u64`). Trusted: the result is what `json_u64_members` holds
/// for `key`; `as_u64` gives a value only for a non-negative integer.
#[verifier::external_body]
pub fn member_u64(v: &serde_json::Value, key: &str) -> (r: Option<u64>)
    ensures
        r == lookup(json_u64_members(*v), key@),
{
    v.get(key).and_then(serde_json::Value::as_u64)
}

/// The member `key` of the object `v` as a string (`Value::get`, then
/// `Value::as_str`). Trusted: the result is what `json_str_members` holds
/// for `key`.
#[verifier::external_body]
pub fn member_str<'a>(v: &'a serde_json::Value, key: &str) -> (r: Option<&'a str>)
    ensures
        r is Some <==> json_str_members(*v).dom().contains(key@),
        r matches Some(s) ==> s@ == json_str_members(*v)[key@],
{
    v.get(key).and_then(serde_json::Value::as_str)
}

/// The member `key` of the object `v` as a boolean (`Value::get`, then
/// `Value::as_bool`). Trusted: the result is what `json_bool_members` holds
/// for `key`.
#[verifier::external_body]
pub fn member_bool(v: &serde_json::Value, key: &str) -> (r: Option<bool>)
    ensures
        r == lookup(json_bool_members(*v), key@),
{
    v.get(key).and_then(serde_json::Value::as_bool)
}

/// The member `key` of the object `v`, when it is a number, as `serde_json`
/// writes it (`Value::get`, `Value::as_number`, then `Number`'s `to_string`).
/// Trusted: the result is what `json_number_members` holds for `key`.
#[verifier::external_body]
pub fn member_number_text(v: &serde_json::Value, key: &str) -> (r: Option<String>)
    ensures
        r is Some <==> json_number_members(*v).dom().contains(key@),
        r matches Some(s) ==> s@ == json_number_members(*v)[key@],
{
    v.get(key).and_then(serde_json::Value::as_number).map(ToString::to_string)
}

} // verus!
