//! Trusted boundary to `serde_json`: parsing a response body into a JSON
//! value, and reading a string-valued field out of such a value.
//!
//! A `serde_json::Value` is opaque here. What the library reads of one is
//! captured by two uninterpreted names: whether a piece of text parses at
//! all (`json_parses`), and the string field a value holds under a key
//! (`json_str_field`). Everything that decides on those reads is verified
//! code elsewhere in the crate.

use vstd::prelude::*;

verus! {

#[verifier::external_type_specification]
#[verifier::external_body]
pub struct ExValue(serde_json::Value);

#[verifier::external_type_specification]
#[verifier::external_body]
pub struct ExError(serde_json::Error);

/// Whether a piece of text is well-formed JSON, i.e. whether
/// `serde_json::from_str::<serde_json::Value>` returns `Ok` on it.
pub uninterp spec fn json_parses(s: Seq<char>) -> bool;

/// The string-valued field a JSON value holds under a key: `Some` of the
/// field's text when the value is an object whose entry under the key is a
/// JSON string, `None` otherwise.
pub uninterp spec fn json_str_field(v: serde_json::Value, key: Seq<char>) -> Option<Seq<char>>;

/// Relies on `serde_json::from_str::<serde_json::Value>`: whether the parse
/// succeeds depends on the characters of the input alone, so its success is
/// named by `json_parses`.
#[verifier::external_body]
pub fn parse_json(s: &str) -> (r: Result<serde_json::Value, serde_json::Error>)
    ensures
        (r is Ok) == json_parses(s@),
{
    serde_json::from_str::<serde_json::Value>(s)
}

/// Relies on `serde_json::Value::get` and `serde_json::Value::as_str`: with
/// a string key, `get` returns an object's entry under that key and `None`
/// on any other value or an absent key; `as_str` returns the text of a JSON
/// string and `None` on any other variant. Both read the value alone, so
/// the composition is named by `json_str_field`.
#[verifier::external_body]
pub fn str_field(v: &serde_json::Value, key: &str) -> (r: Option<String>)
    ensures
        r.deep_view() == json_str_field(*v, key@),
{
    match v.get(key) {
        Some(field) => match field.as_str() {
            Some(s) => Some(s.to_string()),
            None => None,
        },
        None => None,
    }
}

} // verus!
