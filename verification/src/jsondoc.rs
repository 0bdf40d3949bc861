//! Trusted access to a JSON configuration document through serde_json.
//!
//! Each spec function below names the value of one top-level field of the
//! document; that value is a function of the document bytes and the key
//! alone, so the names are sound to treat as pure. The executable accessors
//! are the only places where the engine core calls serde_json.

use vstd::prelude::*;

verus! {

/// The string value of top-level field `key` of `doc`, if `doc` parses as a
/// JSON object whose field `key` holds a string; `None` otherwise.
pub uninterp spec fn string_field(doc: Seq<u8>, key: Seq<char>) -> Option<Seq<char>>;

/// The unsigned-integer value of top-level field `key` of `doc`, if `doc`
/// parses as a JSON object whose field `key` holds an integer representable
/// as `u64`; `None` otherwise.
pub uninterp spec fn nat_field(doc: Seq<u8>, key: Seq<char>) -> Option<u64>;

/// The length of the array held by top-level field `key` of `doc`, if `doc`
/// parses as a JSON object whose field `key` holds an array; `None` otherwise.
pub uninterp spec fn list_len_field(doc: Seq<u8>, key: Seq<char>) -> Option<usize>;

/// The string at index `idx` of the array held by top-level field `key` of
/// `doc`, if that element exists and is a string; `None` otherwise.
pub uninterp spec fn list_string_field(doc: Seq<u8>, key: Seq<char>, idx: int) -> Option<Seq<char>>;

/// Relies on serde_json::from_slice and serde_json::Value::{get, as_str}:
/// reads the string value of one top-level field of the document.
#[verifier::external_body]
pub(crate) fn json_string_field(doc: &Vec<u8>, key: &str) -> (r: Option<String>)
    ensures
        match r {
            Some(s) => string_field(doc@, key@) == Some(s@),
            None => string_field(doc@, key@) is None,
        },
{
    let v: serde_json::Value = serde_json::from_slice(doc).ok()?;
    v.get(key)?.as_str().map(String::from)
}

/// Relies on serde_json::from_slice and serde_json::Value::{get, as_u64}:
/// reads the unsigned-integer value of one top-level field of the document.
#[verifier::external_body]
pub(crate) fn json_nat_field(doc: &Vec<u8>, key: &str) -> (r: Option<u64>)
    ensures
        match r {
            Some(v) => nat_field(doc@, key@) == Some(v),
            None => nat_field(doc@, key@) is None,
        },
{
    let v: serde_json::Value = serde_json::from_slice(doc).ok()?;
    v.get(key)?.as_u64()
}

/// Relies on serde_json::from_slice and serde_json::Value::{get, as_array}:
/// reads the length of the array held by one top-level field of the document.
#[verifier::external_body]
pub(crate) fn json_list_len_field(doc: &Vec<u8>, key: &str) -> (r: Option<usize>)
    ensures
        match r {
            Some(n) => list_len_field(doc@, key@) == Some(n),
            None => list_len_field(doc@, key@) is None,
        },
{
    let v: serde_json::Value = serde_json::from_slice(doc).ok()?;
    v.get(key)?.as_array().map(|a| a.len())
}

/// Relies on serde_json::from_slice and serde_json::Value::{get, as_array,
/// as_str}: reads one string element of the array held by one top-level
/// field of the document.
#[verifier::external_body]
pub(crate) fn json_list_string_field(doc: &Vec<u8>, key: &str, idx: usize) -> (r: Option<String>)
    ensures
        match r {
            Some(s) => list_string_field(doc@, key@, idx as int) == Some(s@),
            None => list_string_field(doc@, key@, idx as int) is None,
        },
{
    let v: serde_json::Value = serde_json::from_slice(doc).ok()?;
    v.get(key)?.as_array()?.get(idx)?.as_str().map(String::from)
}

} // verus!
