//! The token of a document: the string at `gateway.auth.token`.

use vstd::prelude::*;
use crate::error::{outcome, Failure, TokenError};
use crate::json::{Json, JsonValue};
use crate::parse::{document_of, parse_document, parsed};

verus! {

/// The string at `gateway.auth.token`: each of the three names must be a
/// member of an object, and the value reached must be a string.
pub open spec fn token_of(doc: JsonValue) -> Option<Seq<char>> {
    match doc.member("gateway"@) {
        Some(gateway) => match gateway.member("auth"@) {
            Some(auth) => match auth.member("token"@) {
                Some(token) => token.text(),
                None => None,
            },
            None => None,
        },
        None => None,
    }
}

/// What `extract_token` returns on a document, as a value.
pub open spec fn extracted(doc: JsonValue) -> Result<Seq<char>, Failure> {
    match token_of(doc) {
        Some(token) => Ok(token),
        None => Err(Failure::FieldNotFound),
    }
}

/// What `token_from_text` returns on a text, as a value.
pub open spec fn text_outcome(text: Seq<char>) -> Result<Seq<char>, Failure> {
    match document_of(text) {
        Ok(doc) => extracted(doc),
        Err(failure) => Err(failure),
    }
}

/// What an attempt to read a file gave, as a value: the text, or the cause of
/// the failure.
pub open spec fn observed(read: Result<String, String>) -> Result<Seq<char>, Seq<char>> {
    match read {
        Ok(text) => Ok(text@),
        Err(cause) => Err(cause@),
    }
}

/// What `token_from_read` returns, as a value.
pub open spec fn read_outcome(path: Seq<char>, read: Result<Seq<char>, Seq<char>>) -> Result<
    Seq<char>,
    Failure,
> {
    match read {
        Ok(text) => text_outcome(text),
        Err(cause) => Err(Failure::FileReadError { path, cause }),
    }
}

/// The token of a document, unchanged; `FieldNotFound` where the document has
/// no string at `gateway.auth.token`.
pub fn extract_token(doc: &Json) -> (r: Result<String, TokenError>)
    ensures
        outcome(r) == extracted(doc@),
{
    let gateway = match doc.get("gateway") {
        Some(j) => j,
        None => { return Err(TokenError::FieldNotFound); },
    };
    let auth = match gateway.get("auth") {
        Some(j) => j,
        None => { return Err(TokenError::FieldNotFound); },
    };
    let token = match auth.get("token") {
        Some(j) => j,
        None => { return Err(TokenError::FieldNotFound); },
    };
    match token.as_str() {
        Some(s) => Ok(String::from_str(s)),
        None => Err(TokenError::FieldNotFound),
    }
}

/// The token of the document that a text holds; `ParseError` where the text
/// holds no JSON document.
pub fn token_from_text(text: &str) -> (r: Result<String, TokenError>)
    ensures
        outcome(r) == text_outcome(text@),
{
    match parse_document(text) {
        Ok(doc) => extract_token(&doc),
        Err(e) => Err(e),
    }
}

/// The token, from what reading the file at `path` gave; `FileReadError` with
/// the path and the cause where the file could not be read.
pub fn token_from_read(path: &str, read: Result<String, String>) -> (r: Result<String, TokenError>)
    ensures
        outcome(r) == read_outcome(path@, observed(read)),
{
    match read {
        Ok(text) => token_from_text(text.as_str()),
        Err(cause) => Err(TokenError::FileReadError { path: String::from_str(path), cause }),
    }
}

/// A document whose `gateway` member has an `auth` member with a string as
/// its `token` member gives that string, character for character.
pub proof fn lemma_string_on_the_path_is_the_token(
    doc: JsonValue,
    gateway: JsonValue,
    auth: JsonValue,
    token: Seq<char>,
)
    requires
        doc.member("gateway"@) == Some(gateway),
        gateway.member("auth"@) == Some(auth),
        auth.member("token"@) == Some(JsonValue::Text(token)),
    ensures
        extracted(doc) == Ok::<Seq<char>, Failure>(token),
{
}

/// A token is found only along objects: the document, its `gateway` member
/// and that member's `auth` member are objects, and the `token` member is the
/// string that is returned.
pub proof fn lemma_token_lies_on_the_path(doc: JsonValue)
    requires
        token_of(doc) is Some,
    ensures
        doc is Object,
        doc.member("gateway"@) is Some,
        doc.member("gateway"@)->Some_0 is Object,
        doc.member("gateway"@)->Some_0.member("auth"@) is Some,
        doc.member("gateway"@)->Some_0.member("auth"@)->Some_0 is Object,
        doc.member("gateway"@)->Some_0.member("auth"@)->Some_0.member("token"@) == Some(
            JsonValue::Text(token_of(doc)->Some_0),
        ),
{
}

/// A document that lacks a member on the way to `gateway.auth.token` has no
/// token.
pub proof fn lemma_missing_member_is_not_found(doc: JsonValue)
    requires
        doc.member("gateway"@) is None || doc.member("gateway"@)->Some_0.member("auth"@) is None
            || doc.member("gateway"@)->Some_0.member("auth"@)->Some_0.member("token"@) is None,
    ensures
        extracted(doc) == Err::<Seq<char>, Failure>(Failure::FieldNotFound),
{
}

/// A document with anything but a string at `gateway.auth.token` has no token.
pub proof fn lemma_other_than_string_is_not_found(
    doc: JsonValue,
    gateway: JsonValue,
    auth: JsonValue,
    value: JsonValue,
)
    requires
        doc.member("gateway"@) == Some(gateway),
        gateway.member("auth"@) == Some(auth),
        auth.member("token"@) == Some(value),
        !(value is Text),
    ensures
        extracted(doc) == Err::<Seq<char>, Failure>(Failure::FieldNotFound),
{
}

/// A text that holds no JSON document gives a `ParseError` with the parser's
/// message; a text that holds one never gives a `ParseError`.
pub proof fn lemma_parse_error_iff_no_document(text: Seq<char>)
    ensures
        parsed(text) is Err ==> text_outcome(text) == Err::<Seq<char>, Failure>(
            Failure::ParseError { cause: parsed(text)->Err_0 },
        ),
        parsed(text) is Ok ==> !(text_outcome(text) matches Err(Failure::ParseError { .. })),
{
}

} // verus!
