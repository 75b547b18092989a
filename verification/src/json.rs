//! The two JSON readings that the payload wrappers need, done by
//! `serde_json`.
use vstd::prelude::*;
use crate::pipe::views;

verus! {

#[verifier::external_type_specification]
#[verifier::external_body]
pub struct ExJsonError(serde_json::Error);

/// The string that the JSON text `text` denotes, when `text` is exactly one
/// JSON string (surrounding whitespace allowed), as `serde_json` reads it.
pub uninterp spec fn json_string(text: Seq<char>) -> Option<Seq<char>>;

/// The strings that the JSON text `text` denotes, when `text` is exactly one
/// JSON array of strings (surrounding whitespace allowed), as `serde_json`
/// reads it.
pub uninterp spec fn json_string_list(text: Seq<char>) -> Option<Seq<Seq<char>>>;

/// `serde_json::from_str::<String>`: succeeds exactly when `json_string`
/// names a value, and then returns that string. What `json_string` is on a
/// given text (JSON string syntax and escapes) is not stated here.
#[verifier::external_body]
pub fn decode_json_string(text: &str) -> (r: Result<String, serde_json::Error>)
    ensures
        r is Ok <==> json_string(text@) is Some,
        r matches Ok(v) ==> json_string(text@) == Some(v@),
{
    serde_json::from_str::<String>(text)
}

/// `serde_json::from_str::<Vec<String>>`: succeeds exactly when
/// `json_string_list` names a value, and then returns those strings in
/// order. What `json_string_list` is on a given text is not stated here.
#[verifier::external_body]
pub fn decode_json_string_list(text: &str) -> (r: Result<Vec<String>, serde_json::Error>)
    ensures
        r is Ok <==> json_string_list(text@) is Some,
        r matches Ok(v) ==> json_string_list(text@) == Some(views(v@)),
{
    serde_json::from_str::<Vec<String>>(text)
}

} // verus!
