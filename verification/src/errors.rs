//! The failures the pipeline can report.

use vstd::prelude::*;

verus! {

/// An unrecognized configuration value, reported before any fetch is tried.
#[derive(Debug, Clone, Copy, PartialEq, Eq, Structural)]
pub enum ConfigError {
    UnknownEnvironment,
    UnknownDialect,
}

/// One of the fields a session response must carry.
#[derive(Debug, Clone, Copy, PartialEq, Eq, Structural)]
pub enum Field {
    Token,
    SessionId,
    ApiKey,
}

/// Why a response body yielded no session descriptor.
#[derive(Debug, Clone, Copy, PartialEq, Eq, Structural)]
pub enum ParseError {
    /// The body is not a JSON object.
    MalformedResponse,
    /// The body is a JSON object but the named field is absent or not a string.
    MissingField(Field),
}

impl ParseError {
    /// A diagnostic line for this failure.
    pub fn message(&self) -> (r: &'static str)
        ensures
            *self == ParseError::MalformedResponse ==> r@ == "could not parse response"@,
            *self == ParseError::MissingField(Field::Token) ==> r@ == "could not parse token"@,
            *self == ParseError::MissingField(Field::SessionId) ==> r@
                == "could not parse sessionId"@,
            *self == ParseError::MissingField(Field::ApiKey) ==> r@ == "could not parse apikey"@,
    {
        match self {
            ParseError::MalformedResponse => "could not parse response",
            ParseError::MissingField(Field::Token) => "could not parse token",
            ParseError::MissingField(Field::SessionId) => "could not parse sessionId",
            ParseError::MissingField(Field::ApiKey) => "could not parse apikey",
        }
    }
}

} // verus!
