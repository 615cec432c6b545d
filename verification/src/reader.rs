//! The whole operation: find the configuration file, read it, take the token.

use vstd::prelude::*;
use crate::error::{lemma_read_failure_names_the_path, outcome, Failure, TokenError};
use crate::locate::{config_path_of, home_directory, locate, located};
use crate::token::{observed, read_outcome, text_outcome, token_from_read};

verus! {

/// What the operation returns, as a value, from what the platform said of the
/// home directory and from what reading the configuration file gave.
pub open spec fn token_outcome(
    home: Option<Seq<char>>,
    read: Result<Seq<char>, Seq<char>>,
) -> Result<Seq<char>, Failure> {
    match located(home) {
        Ok(path) => read_outcome(path, read),
        Err(failure) => Err(failure),
    }
}

/// Reads the token of the user whose home directory is `home`, through
/// `read`, which gives the text of the file at a path or says why it could
/// not be read. `read` is asked once, for the configuration file below the
/// home directory, and the result is the one that `token_outcome` gives for
/// its answer; without a home directory it is not asked.
pub fn read_token_from<R: Fn(&str) -> Result<String, String>>(home: Option<String>, read: R) -> (r:
    Result<String, TokenError>)
    requires
        forall|path: &str| call_requires(read, (path,)),
    ensures
        home is None ==> outcome(r) == Err::<Seq<char>, Failure>(Failure::HomeDirUnresolved),
        home matches Some(h) ==> exists|path: &str, answer: Result<String, String>|
            path@ == config_path_of(h@) && call_ensures(read, (path,), answer) && outcome(r)
                == token_outcome(Some(h@), observed(answer)),
{
    match locate(home) {
        Ok(path) => {
            let asked = path.as_str();
            let answer = read(asked);
            let ghost given = answer;
            let r = token_from_read(asked, answer);
            assert(call_ensures(read, (asked,), given));
            r
        },
        Err(e) => Err(e),
    }
}

/// Reads the token of the current user, through `read`. Which home directory
/// the platform names is not for this library to say; the result is the one
/// that `read_token_from` gives for it.
pub fn read_token<R: Fn(&str) -> Result<String, String>>(read: R) -> (r: Result<String, TokenError>)
    requires
        forall|path: &str| call_requires(read, (path,)),
    ensures
        outcome(r) == Err::<Seq<char>, Failure>(Failure::HomeDirUnresolved) || exists|
            home: Seq<char>,
            path: &str,
            answer: Result<String, String>,
        |
            path@ == config_path_of(home) && call_ensures(read, (path,), answer) && outcome(r)
                == token_outcome(Some(home), observed(answer)),
{
    read_token_from(home_directory(), read)
}

/// Without a home directory the result is `HomeDirUnresolved`, whatever a
/// file may hold.
pub proof fn lemma_no_home_is_unresolved(read: Result<Seq<char>, Seq<char>>)
    ensures
        token_outcome(None, read) == Err::<Seq<char>, Failure>(Failure::HomeDirUnresolved),
{
}

/// A file that cannot be read gives a `FileReadError` with the path of the
/// configuration file below the home directory and with the cause, and the
/// message of that failure holds the path.
pub proof fn lemma_unreadable_file_names_the_path(home: Seq<char>, cause: Seq<char>)
    ensures
        token_outcome(Some(home), Err(cause)) == Err::<Seq<char>, Failure>(
            Failure::FileReadError { path: config_path_of(home), cause },
        ),
        exists|before: Seq<char>, after: Seq<char>|
            (Failure::FileReadError { path: config_path_of(home), cause }).message() == before
                + config_path_of(home) + after,
{
    lemma_read_failure_names_the_path(config_path_of(home), cause);
}

/// A file that can be read gives what its text gives: the home directory has
/// no further part in the result.
pub proof fn lemma_readable_file_gives_its_token(home: Seq<char>, text: Seq<char>)
    ensures
        token_outcome(Some(home), Ok(text)) == text_outcome(text),
{
}

/// Reading twice what has not changed gives the same result twice: the token
/// and every failure are determined by the home directory and by what reading
/// the file gave.
pub proof fn lemma_unchanged_file_same_token(
    home: Option<Seq<char>>,
    read: Result<Seq<char>, Seq<char>>,
    first: Result<String, TokenError>,
    second: Result<String, TokenError>,
)
    requires
        outcome(first) == token_outcome(home, read),
        outcome(second) == token_outcome(home, read),
    ensures
        outcome(first) == outcome(second),
        first matches Ok(token) ==> second matches Ok(again) && again@ == token@,
{
}

} // verus!
