//! Reads the gateway authentication token out of a user's OpenClaw
//! configuration document.

pub mod error;
pub mod json;
pub mod locate;
pub mod parse;
pub mod reader;
pub mod token;
