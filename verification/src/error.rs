//! The errors of the command line tool and the exit codes they map to.
use vstd::prelude::*;
use crate::text::{push_str, string_from};

verus! {

/// Everything that can stop a command. Errors raised by outside code (reading a
/// file, the HTTP transport, JSON and TOML decoding) carry the text that the
/// outside error displays.
#[derive(Debug)]
pub enum CliError {
    MissingToken,
    Config(String),
    Input(String),
    Io(String),
    Http(String),
    Json(String),
    Toml(String),
    Request(String),
    SemanticFailure(String),
}

/// The exit status of an error: 2 for a semantic failure that Splitwise reported
/// in a successful response, 1 for everything else.
pub open spec fn exit_code_of(e: CliError) -> i32 {
    match e {
        CliError::SemanticFailure(_) => 2,
        _ => 1,
    }
}

/// The message shown for an error.
pub open spec fn error_text(e: CliError) -> Seq<char> {
    match e {
        CliError::MissingToken => missing_token_text(),
        CliError::Config(m) => "config error: "@ + m@,
        CliError::Input(m) => "input error: "@ + m@,
        CliError::Io(m) => m@,
        CliError::Http(m) => m@,
        CliError::Json(m) => m@,
        CliError::Toml(m) => m@,
        CliError::Request(m) => "request failed: "@ + m@,
        CliError::SemanticFailure(m) => "Splitwise reported a semantic failure: "@ + m@,
    }
}

pub open spec fn missing_token_text() -> Seq<char> {
    "missing Splitwise token; set --token or one of SPLITWISE_API_KEY, SPLITWISE_ACCESS_TOKEN, SPLITWISE_OAUTH_ACCESS_TOKEN, SPLITWISE_BEARER_TOKEN"@
}

/// A `String` holding `prefix` followed by `rest`.
fn prefixed(prefix: &str, rest: &String) -> (s: String)
    ensures
        s@ == prefix@ + rest@,
{
    let mut s = string_from(prefix);
    push_str(&mut s, rest.as_str());
    s
}

impl CliError {
    /// The process exit status for this error.
    pub fn exit_code(&self) -> (code: i32)
        ensures
            code == exit_code_of(*self),
    {
        match self {
            CliError::SemanticFailure(_) => 2,
            _ => 1,
        }
    }

    /// The message shown on standard error.
    pub fn message(&self) -> (s: String)
        ensures
            s@ == error_text(*self),
    {
        match self {
            CliError::MissingToken => string_from(
                "missing Splitwise token; set --token or one of SPLITWISE_API_KEY, SPLITWISE_ACCESS_TOKEN, SPLITWISE_OAUTH_ACCESS_TOKEN, SPLITWISE_BEARER_TOKEN",
            ),
            CliError::Config(m) => prefixed("config error: ", m),
            CliError::Input(m) => prefixed("input error: ", m),
            CliError::Io(m) => m.clone(),
            CliError::Http(m) => m.clone(),
            CliError::Json(m) => m.clone(),
            CliError::Toml(m) => m.clone(),
            CliError::Request(m) => prefixed("request failed: ", m),
            CliError::SemanticFailure(m) => prefixed("Splitwise reported a semantic failure: ", m),
        }
    }
}

} // verus!
