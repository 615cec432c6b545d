//! The ways in which reading the token fails.

use vstd::prelude::*;
use vstd::string::*;

verus! {

/// Why no token was returned.
#[derive(Debug, PartialEq, Eq)]
pub enum TokenError {
    /// The platform could not tell the user's home directory.
    HomeDirUnresolved,
    /// The configuration file could not be read.
    FileReadError { path: String, cause: String },
    /// The configuration file does not hold a JSON document.
    ParseError { cause: String },
    /// The document has no string at `gateway.auth.token`.
    FieldNotFound,
}

/// The mathematical value of a `TokenError`.
pub enum Failure {
    HomeDirUnresolved,
    FileReadError { path: Seq<char>, cause: Seq<char> },
    ParseError { cause: Seq<char> },
    FieldNotFound,
}

impl View for TokenError {
    type V = Failure;

    open spec fn view(&self) -> Failure {
        match self {
            TokenError::HomeDirUnresolved => Failure::HomeDirUnresolved,
            TokenError::FileReadError { path, cause } => Failure::FileReadError {
                path: path@,
                cause: cause@,
            },
            TokenError::ParseError { cause } => Failure::ParseError { cause: cause@ },
            TokenError::FieldNotFound => Failure::FieldNotFound,
        }
    }
}

impl Failure {
    /// The message that a person reads: it names the path or the cause where
    /// the failure has one.
    pub open spec fn message(self) -> Seq<char> {
        match self {
            Failure::HomeDirUnresolved => "cannot resolve home directory"@,
            Failure::FileReadError { path, cause } => "cannot read "@ + path + ": "@ + cause,
            Failure::ParseError { cause } => "invalid JSON: "@ + cause,
            Failure::FieldNotFound => "gateway.auth.token not found in openclaw.json"@,
        }
    }
}

impl TokenError {
    /// The message of this failure, for a person to read.
    pub fn message(&self) -> (m: String)
        ensures
            m@ == self@.message(),
    {
        match self {
            TokenError::HomeDirUnresolved => String::from_str("cannot resolve home directory"),
            TokenError::FileReadError { path, cause } => {
                let mut m = String::from_str("cannot read ");
                m.append(path.as_str());
                m.append(": ");
                m.append(cause.as_str());
                m
            },
            TokenError::ParseError { cause } => {
                let mut m = String::from_str("invalid JSON: ");
                m.append(cause.as_str());
                m
            },
            TokenError::FieldNotFound => String::from_str(
                "gateway.auth.token not found in openclaw.json",
            ),
        }
    }
}

/// The message of a file that could not be read holds the path, and ends with
/// the cause.
pub proof fn lemma_read_failure_names_the_path(path: Seq<char>, cause: Seq<char>)
    ensures
        exists|before: Seq<char>, after: Seq<char>|
            (Failure::FileReadError { path, cause }).message() == before + path + after,
        exists|before: Seq<char>|
            (Failure::FileReadError { path, cause }).message() == before + cause,
{
    let message = (Failure::FileReadError { path, cause }).message();
    assert(message =~= "cannot read "@ + path + (": "@ + cause));
    assert(message == "cannot read "@ + path + ": "@ + cause);
}

/// The value of a result of the library: the token's characters, or the failure.
pub open spec fn outcome(r: Result<String, TokenError>) -> Result<Seq<char>, Failure> {
    match r {
        Ok(token) => Ok(token@),
        Err(e) => Err(e@),
    }
}

} // verus!
