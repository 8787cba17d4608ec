//! The JSON codec that documents are stored with. Nothing in this file is
//! proved: each item states what is taken on trust of `serde_json`.

use vstd::prelude::*;

verus! {

/// A JSON value of `serde_json`, carried through without being looked into.
#[verifier::external_type_specification]
#[verifier::external_body]
pub struct ExJsonValue(serde_json::Value);

/// The error of `serde_json`, carried through without being looked into.
#[verifier::external_type_specification]
#[verifier::external_body]
pub struct ExJsonError(serde_json::Error);

/// What `serde_json::to_string_pretty` gives for a JSON value: the
/// pretty-printed text, or the codec's error. It depends on the value alone.
pub uninterp spec fn printed_json(data: serde_json::Value) -> Result<Seq<char>, serde_json::Error>;

/// What `serde_json::from_str` gives for a text read as one JSON value: the
/// value, or the codec's error. It depends on the text alone.
pub uninterp spec fn parsed_json(text: Seq<char>) -> Result<serde_json::Value, serde_json::Error>;

/// The text that a `serde_json::Error` displays: its code and, where it has
/// one, its line and column. It depends on the error alone.
pub uninterp spec fn displayed_error(e: serde_json::Error) -> Seq<char>;

/// `serde_json::to_string_pretty` on a JSON value: the result is what
/// `printed_json` names for the value.
#[verifier::external_body]
pub(crate) fn to_pretty_text(data: &serde_json::Value) -> (r: Result<String, serde_json::Error>)
    ensures
        match r {
            Ok(text) => printed_json(*data) == Ok::<Seq<char>, serde_json::Error>(text@),
            Err(e) => printed_json(*data) == Err::<Seq<char>, serde_json::Error>(e),
        },
{
    serde_json::to_string_pretty(data)
}

/// `serde_json::from_str` for a JSON value: the result is what `parsed_json`
/// names for the text.
#[verifier::external_body]
pub(crate) fn parse_text(text: &str) -> (r: Result<serde_json::Value, serde_json::Error>)
    ensures
        r == parsed_json(text@),
{
    serde_json::from_str::<serde_json::Value>(text)
}

/// The `Display` text of a `serde_json::Error`: what `displayed_error` names
/// for the error.
#[verifier::external_body]
pub(crate) fn error_text(e: &serde_json::Error) -> (r: String)
    ensures
        r@ == displayed_error(*e),
{
    e.to_string()
}

} // verus!
