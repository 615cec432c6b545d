//! Where the configuration file lies.

use vstd::prelude::*;
use crate::error::{outcome, Failure, TokenError};

verus! {

/// The path of the configuration file below a home directory.
pub open spec fn config_path_of(home: Seq<char>) -> Seq<char> {
    home + "/.openclaw/openclaw.json"@
}

/// The path of the configuration file below `home`.
pub fn config_path(home: &str) -> (path: String)
    ensures
        path@ == config_path_of(home@),
{
    let mut path = String::from_str(home);
    path.append("/.openclaw/openclaw.json");
    path
}

/// What `locate` returns, as a value.
pub open spec fn located(home: Option<Seq<char>>) -> Result<Seq<char>, Failure> {
    match home {
        Some(h) => Ok(config_path_of(h)),
        None => Err(Failure::HomeDirUnresolved),
    }
}

/// The home directory as a value.
pub open spec fn home_value(home: Option<String>) -> Option<Seq<char>> {
    match home {
        Some(h) => Some(h@),
        None => None,
    }
}

/// The path of the configuration file, from what the platform said of the
/// home directory; `HomeDirUnresolved` where it said nothing.
pub fn locate(home: Option<String>) -> (r: Result<String, TokenError>)
    ensures
        outcome(r) == located(home_value(home)),
{
    match home {
        Some(h) => Ok(config_path(h.as_str())),
        None => Err(TokenError::HomeDirUnresolved),
    }
}

/// Calls `dirs::home_dir` and hands the path on as text, with the replacement
/// character for what is not Unicode in it. Nothing is claimed of the result:
/// it depends on the process's environment and on the platform.
#[verifier::external_body]
pub(crate) fn home_directory() -> (home: Option<String>) {
    dirs::home_dir().map(|p| p.to_string_lossy().into_owned())
}

/// The path of the current user's configuration file. Which home directory
/// the platform names is not for this library to say; whatever it names, the
/// path lies below it, and without one the result is `HomeDirUnresolved`.
pub fn resolve_config_path() -> (r: Result<String, TokenError>)
    ensures
        exists|home: Option<Seq<char>>| outcome(r) == located(home),
{
    let home = home_directory();
    let r = locate(home);
    assert(outcome(r) == located(home_value(home)));
    r
}

} // verus!
