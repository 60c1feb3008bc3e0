//! Structured responses: re-parsing a command's text response as JSON.
//!
//! The JSON value representation itself is an external collaborator; this
//! module treats a parsed value as opaque. It decides when parsing
//! succeeds, how failures surface, and pins the published reply to the
//! text's parse-then-render form, named at the string-to-string level.

use vstd::prelude::*;

use crate::errors::Error;

verus! {

/// Declares `serde_json::Value`, the opaque structured-data type carried
/// through this library, so that it can stand in signatures.
#[verifier::external_type_specification]
#[verifier::external_body]
pub struct ExValue(serde_json::Value);

/// Whether a text is syntactically valid JSON, i.e. whether
/// `serde_json::from_str::<Value>` accepts it.
pub uninterp spec fn json_wf(s: Seq<char>) -> bool;

/// Relies on `serde_json::from_str::<Value>`: parsing into a generic value
/// succeeds exactly when the text is syntactically valid JSON. The parse
/// error carries only diagnostics and is dropped here.
#[verifier::external_body]
fn json_parse(s: &str) -> (r: Option<serde_json::Value>)
    ensures
        r is Some <==> json_wf(s@),
{
    match serde_json::from_str(s) {
        Ok(v) => Some(v),
        Err(_) => None,
    }
}

/// What parsing a text as JSON and rendering the parsed value back in
/// compact syntax produces. The parsed value is opaque, so the pipeline is
/// named at the string-to-string level; it is a function of the text alone,
/// and only texts that `json_wf` accepts ever reach it.
pub uninterp spec fn json_reply_of(s: Seq<char>) -> Seq<char>;

/// Relies on `serde_json::from_str::<Value>` and on the compact `Display`
/// rendering of `serde_json::Value`: parsing succeeds exactly when the text
/// is syntactically valid JSON, and rendering the value a successful parse
/// hands back cannot fail — the parser's recursion limit bounds the value's
/// depth, and compact rendering into a `String` has no other failure path.
/// The reply is a function of the text alone, named by `json_reply_of`.
#[verifier::external_body]
fn json_reply(s: &str) -> (r: Option<String>)
    ensures
        r is Some <==> json_wf(s@),
        r matches Some(t) ==> t@ == json_reply_of(s@),
{
    match serde_json::from_str::<serde_json::Value>(s) {
        Ok(v) => Some(v.to_string()),
        Err(_) => None,
    }
}

/// Parses a response text as structured data. Empty or malformed text is a
/// `ParseError`; everything else yields the parsed value.
pub fn parse_structured(text: &str) -> (r: Result<serde_json::Value, Error>)
    ensures
        text@.len() == 0 ==> r == Err::<serde_json::Value, Error>(Error::ParseError),
        text@.len() > 0 ==> ((r is Ok) <==> json_wf(text@)),
        !(r is Ok) ==> r == Err::<serde_json::Value, Error>(Error::ParseError),
{
    if text.is_empty() {
        return Err(Error::ParseError);
    }
    match json_parse(text) {
        Some(v) => Ok(v),
        None => Err(Error::ParseError),
    }
}

/// Parses a response text as structured data and renders the parsed value
/// back as one JSON line, the form a worker publishes on its reply channel.
/// Empty or malformed text is a `ParseError`; every other text yields
/// exactly its parse-then-render form.
pub fn structured_reply(text: &str) -> (r: Result<String, Error>)
    ensures
        text@.len() == 0 ==> r == Err::<String, Error>(Error::ParseError),
        text@.len() > 0 ==> ((r is Ok) <==> json_wf(text@)),
        r matches Ok(s) ==> s@ == json_reply_of(text@),
        !(r is Ok) ==> r == Err::<String, Error>(Error::ParseError),
{
    if text.is_empty() {
        return Err(Error::ParseError);
    }
    match json_reply(text) {
        Some(s) => Ok(s),
        None => Err(Error::ParseError),
    }
}

} // verus!
