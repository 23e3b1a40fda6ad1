//! The store's one window onto JSON syntax: parsing through `serde_json`.
//!
//! The store treats a document as raw text and needs only two facts about
//! it: whether the text is syntactically valid JSON, and which keys its
//! top-level object carries (to detect the document's schema generation).
//! Both are functions of the text alone, so they are given names here and
//! every contract in the crate speaks through those names.

use vstd::prelude::*;

verus! {

/// Whether `serde_json` accepts `s` as syntactically valid JSON text.
pub uninterp spec fn json_valid(s: Seq<char>) -> bool;

/// The set of keys of the top-level object of the JSON text `s`: the keys
/// for which a lookup on the parsed value succeeds. Empty when the text
/// does not parse to an object at all.
pub uninterp spec fn json_top_keys(s: Seq<char>) -> Set<Seq<char>>;

/// The set of keys a lookup on the parsed value `v` succeeds for: the keys
/// of `v`'s top-level object, or empty when `v` is not an object.
pub uninterp spec fn top_keys_of(v: serde_json::Value) -> Set<Seq<char>>;

#[verifier::external_type_specification]
#[verifier::external_body]
pub struct ExValue(serde_json::Value);

/// Relies on `serde_json::from_str::<Value>`: it returns `Ok` exactly on
/// syntactically valid JSON text, and the value it parses — in particular
/// the key set of its top-level object — depends on the text alone. The
/// `Err` string carries `serde_json`'s own description of the syntax error.
#[verifier::external_body]
pub(crate) fn parse_document(s: &str) -> (r: Result<serde_json::Value, String>)
    ensures
        r is Ok <==> json_valid(s@),
        r matches Ok(v) ==> top_keys_of(v) == json_top_keys(s@),
{
    serde_json::from_str::<serde_json::Value>(s).map_err(|e| e.to_string())
}

/// Relies on `serde_json::Value::get` with a string index: it returns
/// `Some` exactly when the value is an object that contains the key.
#[verifier::external_body]
pub(crate) fn value_has_key(v: &serde_json::Value, k: &str) -> (r: bool)
    ensures
        r == top_keys_of(*v).contains(k@),
{
    v.get(k).is_some()
}

} // verus!
