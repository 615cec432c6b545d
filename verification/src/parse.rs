//! From text to a JSON document. The parser is `serde_json`'s; this module
//! states what the library relies on and turns the parser's tree into a `Json`.

use vstd::prelude::*;
use crate::error::{Failure, TokenError};
use crate::json::{Json, JsonValue};

verus! {

/// `serde_json::Value`: the parser's tree, carried from `parse_tree` to `lift`
/// and never looked into by verified code.
#[verifier::external_type_specification]
#[verifier::external_body]
pub struct ExValue(serde_json::Value);

/// What `serde_json::from_str` makes of a text: the value of the document that
/// it holds, or the parser's message where it holds none.
pub uninterp spec fn parsed(text: Seq<char>) -> Result<JsonValue, Seq<char>>;

/// The value that a tree of `serde_json` holds.
pub uninterp spec fn tree_value(tree: serde_json::Value) -> JsonValue;

/// Calls `serde_json::from_str` for a `serde_json::Value`. Trusted: what comes
/// back is a function of the text alone, the tree of the document that the
/// text holds or else the parser's error, which is handed on as the message
/// that its `Display` writes.
#[verifier::external_body]
fn parse_tree(text: &str) -> (r: Result<serde_json::Value, String>)
    ensures
        match r {
            Ok(tree) => parsed(text@) == Ok::<JsonValue, Seq<char>>(tree_value(tree)),
            Err(message) => parsed(text@) == Err::<JsonValue, Seq<char>>(message@),
        },
{
    serde_json::from_str::<serde_json::Value>(text).map_err(|e| e.to_string())
}

/// Copies a `serde_json::Value` into a `Json`, variant by variant. Trusted: the
/// copy has the value of the tree, with a number as the text that
/// `serde_json::Number`'s `Display` writes and an object's members in the order
/// in which `serde_json::Map::iter` yields them.
#[verifier::external_body]
fn lift(tree: &serde_json::Value) -> (j: Json)
    ensures
        j@ == tree_value(*tree),
{
    match tree {
        serde_json::Value::Null => Json::Null,
        serde_json::Value::Bool(b) => Json::Bool(*b),
        serde_json::Value::Number(n) => Json::Number(n.to_string()),
        serde_json::Value::String(s) => Json::Text(s.clone()),
        serde_json::Value::Array(items) => Json::Array(items.iter().map(lift).collect()),
        serde_json::Value::Object(members) => Json::Object(
            members.iter().map(|(k, v)| (k.clone(), lift(v))).collect(),
        ),
    }
}

/// What `parse_document` returns on a text, as a value.
pub open spec fn document_of(text: Seq<char>) -> Result<JsonValue, Failure> {
    match parsed(text) {
        Ok(value) => Ok(value),
        Err(cause) => Err(Failure::ParseError { cause }),
    }
}

/// Parses a text as one JSON document.
pub fn parse_document(text: &str) -> (r: Result<Json, TokenError>)
    ensures
        match r {
            Ok(doc) => document_of(text@) == Ok::<JsonValue, Failure>(doc@),
            Err(e) => document_of(text@) == Err::<JsonValue, Failure>(e@),
        },
{
    match parse_tree(text) {
        Ok(tree) => Ok(lift(&tree)),
        Err(cause) => Err(TokenError::ParseError { cause }),
    }
}

} // verus!
