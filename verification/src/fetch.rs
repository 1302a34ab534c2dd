//! The status fetch: one GET of a fixed address, whose body is read as text
//! and parsed as a JSON document.
//!
//! The network round trip belongs to the host. It reports how the round trip
//! ended as an [`Exchange`], and [`fetch`] turns that into the report or into
//! the error that the caller sees. Nothing is retried and nothing is cached.

use vstd::prelude::*;

verus! {

/// The address that every fetch requests, query string included.
pub const STATUS_URL: &'static str = "https://relaypulse.top/api/status?period=24h";

/// `serde_json::Value`, the parsed status report. The library hands it on
/// without looking inside.
#[verifier::external_type_specification]
#[verifier::external_body]
pub struct ExJsonValue(serde_json::Value);

/// `serde_json::Error`, the reason why a text is not a JSON document.
#[verifier::external_type_specification]
#[verifier::external_body]
pub struct ExJsonError(serde_json::Error);

/// What `serde_json::from_str` returns for `body` when it is asked for a
/// `serde_json::Value`.
pub uninterp spec fn json_parse(body: Seq<char>) -> Result<serde_json::Value, serde_json::Error>;

/// Calls `serde_json::from_str::<serde_json::Value>`. The contract claims only
/// that the outcome is determined by the text: the parser reads nothing but
/// its argument.
#[verifier::external_body]
fn json_from_str(body: &str) -> (parsed: Result<serde_json::Value, serde_json::Error>)
    ensures
        parsed == json_parse(body@),
{
    serde_json::from_str::<serde_json::Value>(body)
}

/// How one round trip to [`STATUS_URL`] ended.
#[derive(Clone, Debug, PartialEq, Eq)]
pub enum Exchange {
    /// The request did not complete (name resolution, connection, transfer).
    /// Holds the transport's message.
    Unreachable(String),
    /// A response arrived but its body could not be decoded as text. Holds the
    /// decoder's message.
    Undecodable(String),
    /// The whole response body, as text.
    Body(String),
}

/// Why a fetch produced no report. Each variant holds a message for people.
#[derive(Clone, Debug, PartialEq, Eq)]
pub enum FetchError {
    /// The request did not complete.
    Transport(String),
    /// The response body could not be decoded as text.
    Decode(String),
    /// The response body is not a JSON document.
    Parse(String),
}

impl FetchError {
    /// The message that the error holds.
    pub open spec fn text(self) -> String {
        match self {
            FetchError::Transport(message) => message,
            FetchError::Decode(message) => message,
            FetchError::Parse(message) => message,
        }
    }

    /// A copy of the message that the error holds.
    pub fn message(&self) -> (message: String)
        ensures
            message@ == self.text()@,
    {
        match self {
            FetchError::Transport(message) => message.clone(),
            FetchError::Decode(message) => message.clone(),
            FetchError::Parse(message) => message.clone(),
        }
    }

    /// Gives up the error for the message that it holds.
    pub fn into_message(self) -> (message: String)
        ensures
            message == self.text(),
    {
        match self {
            FetchError::Transport(message) => message,
            FetchError::Decode(message) => message,
            FetchError::Parse(message) => message,
        }
    }
}

/// True when `message` is the text that `error` displays as.
pub open spec fn displays_as(error: serde_json::Error, message: String) -> bool {
    vstd::string::to_string_from_display_ensures::<serde_json::Error>(&error, message)
}

/// True when `report` is what a parse that ended as `parsed` yields: the
/// document itself, or a parse error that carries the parser's message.
pub open spec fn reports_parse(
    parsed: Result<serde_json::Value, serde_json::Error>,
    report: Result<serde_json::Value, FetchError>,
) -> bool {
    match parsed {
        Ok(document) => report == Ok::<serde_json::Value, FetchError>(document),
        Err(error) => report matches Err(FetchError::Parse(message)) && displays_as(
            error,
            message,
        ),
    }
}

/// True when `report` is what a round trip that ended as `exchange` yields.
pub open spec fn reports_exchange(
    exchange: Exchange,
    report: Result<serde_json::Value, FetchError>,
) -> bool {
    match exchange {
        Exchange::Unreachable(message) => report == Err::<serde_json::Value, FetchError>(
            FetchError::Transport(message),
        ),
        Exchange::Undecodable(message) => report == Err::<serde_json::Value, FetchError>(
            FetchError::Decode(message),
        ),
        Exchange::Body(body) => reports_parse(json_parse(body@), report),
    }
}

/// Turns the parser's outcome into the fetch's: a document passes through
/// unchanged, a rejection becomes a parse error with the parser's message.
pub fn report_from_parse(parsed: Result<serde_json::Value, serde_json::Error>) -> (report: Result<
    serde_json::Value,
    FetchError,
>)
    ensures
        reports_parse(parsed, report),
{
    match parsed {
        Ok(document) => Ok(document),
        Err(error) => Err(FetchError::Parse(error.to_string())),
    }
}

/// Parses a response body as a JSON document.
pub fn parse_body(body: &str) -> (report: Result<serde_json::Value, FetchError>)
    ensures
        reports_parse(json_parse(body@), report),
{
    report_from_parse(json_from_str(body))
}

/// Concludes one fetch from the way its round trip ended. A failed transport
/// and an undecodable body end the fetch with their own error and message; a
/// body is parsed, and is the report if it is a JSON document.
pub fn fetch(exchange: Exchange) -> (report: Result<serde_json::Value, FetchError>)
    ensures
        reports_exchange(exchange, report),
{
    match exchange {
        Exchange::Unreachable(message) => Err(FetchError::Transport(message)),
        Exchange::Undecodable(message) => Err(FetchError::Decode(message)),
        Exchange::Body(body) => parse_body(body.as_str()),
    }
}

} // verus!
