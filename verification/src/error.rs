//! Errors from the Wan2GP bridge API client.

use vstd::prelude::*;
use vstd::string::StringExecFns;
use crate::text::decimal;
use crate::text::u64_to_decimal;

verus! {

#[verifier::external_type_specification]
#[verifier::external_body]
pub struct ExRequestError(reqwest::Error);

#[verifier::external_type_specification]
#[verifier::external_body]
pub struct ExJsonError(serde_json::Error);

/// Errors from the Wan2GP bridge API client.
#[derive(Debug, Clone, PartialEq, Eq)]
pub enum Wan2gpError {
    /// The bridge API server is not reachable.
    ConnectionFailed(String),
    /// The bridge returned an HTTP error status.
    HttpError { status: u16, message: String },
    /// Failed to parse the response body.
    ParseError(String),
    /// The generation task failed on the Wan2GP side.
    GenerationFailed(String),
    /// The generation task timed out.
    Timeout,
    /// The generation task was cancelled.
    Cancelled,
    /// Any other failure, by its message.
    Other(String),
}

/// The human-readable text of an error.
pub open spec fn error_text(e: Wan2gpError) -> Seq<char> {
    match e {
        Wan2gpError::ConnectionFailed(msg) => "Wan2GP bridge connection failed: "@ + msg@,
        Wan2gpError::HttpError { status, message } => "Wan2GP HTTP error "@ + decimal(
            status as nat,
        ) + ": "@ + message@,
        Wan2gpError::ParseError(msg) => "Wan2GP response parse error: "@ + msg@,
        Wan2gpError::GenerationFailed(msg) => "Wan2GP generation failed: "@ + msg@,
        Wan2gpError::Timeout => "Wan2GP generation timed out"@,
        Wan2gpError::Cancelled => "Wan2GP generation was cancelled"@,
        Wan2gpError::Other(msg) => "Wan2GP error: "@ + msg@,
    }
}

/// The error that a failed request becomes: a connection failure if the
/// transport reports one, otherwise any other failure, kept by its message.
/// A request that merely timed out is not `Timeout`: that error means the
/// generation itself ran past its time limit.
pub open spec fn transport_error(is_connect: bool, message: String) -> Wan2gpError {
    if is_connect {
        Wan2gpError::ConnectionFailed(message)
    } else {
        Wan2gpError::Other(message)
    }
}

/// The text of each error: a fixed prefix naming what went wrong, followed
/// by the error's message (and, for an HTTP error, the status code in
/// decimal and a colon).
pub proof fn lemma_error_texts(message: String, status: u16)
    ensures
        error_text(Wan2gpError::ConnectionFailed(message)) == "Wan2GP bridge connection failed: "@
            + message@,
        error_text(Wan2gpError::HttpError { status, message }) == "Wan2GP HTTP error "@ + decimal(
            status as nat,
        ) + ": "@ + message@,
        error_text(Wan2gpError::ParseError(message)) == "Wan2GP response parse error: "@
            + message@,
        error_text(Wan2gpError::GenerationFailed(message)) == "Wan2GP generation failed: "@
            + message@,
        error_text(Wan2gpError::Timeout) == "Wan2GP generation timed out"@,
        error_text(Wan2gpError::Cancelled) == "Wan2GP generation was cancelled"@,
        error_text(Wan2gpError::Other(message)) == "Wan2GP error: "@ + message@,
{
}

/// A failed request is a connection failure exactly when the transport
/// reports one, and keeps the request error's message either way.
pub proof fn lemma_transport_error_by_flag(is_connect: bool, message: String)
    ensures
        is_connect ==> transport_error(is_connect, message) == Wan2gpError::ConnectionFailed(
            message,
        ),
        !is_connect ==> transport_error(is_connect, message) == Wan2gpError::Other(message),
{
}

/// A failed request never becomes `Timeout`.
pub proof fn lemma_transport_error_not_timeout(is_connect: bool, message: String)
    ensures
        transport_error(is_connect, message) != Wan2gpError::Timeout,
{
}

/// What `reqwest::Error::is_connect` answers for an error: whether a
/// connection failure stands in its chain of sources.
pub uninterp spec fn reports_connect(err: reqwest::Error) -> bool;

/// The display text of a request error, as `reqwest` writes it.
pub uninterp spec fn request_error_message(err: reqwest::Error) -> String;

/// The display text of a JSON error, as `serde_json` writes it.
pub uninterp spec fn json_error_message(err: serde_json::Error) -> String;

/// Calls `reqwest::Error::is_connect`, which walks the error's chain of
/// sources and reports whether a connection failure stands in it. The
/// answer depends on the error alone; it is named `reports_connect`.
#[verifier::external_body]
fn request_error_is_connect(err: &reqwest::Error) -> (r: bool)
    ensures
        r == reports_connect(*err),
{
    err.is_connect()
}

/// Calls the `Display` implementation of `reqwest::Error` (through
/// `to_string`); the text depends on the error alone and is named
/// `request_error_message`.
#[verifier::external_body]
fn request_error_display(err: &reqwest::Error) -> (s: String)
    ensures
        s == request_error_message(*err),
{
    err.to_string()
}

/// Calls the `Display` implementation of `serde_json::Error` (through
/// `to_string`); the text depends on the error alone and is named
/// `json_error_message`.
#[verifier::external_body]
fn json_error_display(err: &serde_json::Error) -> (s: String)
    ensures
        s == json_error_message(*err),
{
    err.to_string()
}

impl Wan2gpError {
    /// The error for a failed request, given whether the transport reports a
    /// connection failure and the request error's message.
    pub fn from_transport_flags(is_connect: bool, message: String) -> (e: Wan2gpError)
        ensures
            e == transport_error(is_connect, message),
    {
        if is_connect {
            Wan2gpError::ConnectionFailed(message)
        } else {
            Wan2gpError::Other(message)
        }
    }

    /// The error for a reply body that could not be decoded into the
    /// expected type; the message is the request error's display text.
    pub fn from_decode_error(err: &reqwest::Error) -> (e: Wan2gpError)
        ensures
            e == Wan2gpError::ParseError(request_error_message(*err)),
    {
        Wan2gpError::ParseError(request_error_display(err))
    }

    /// The error for a reply body that could not be read; the message is the
    /// request error's display text.
    pub fn from_body_error(err: &reqwest::Error) -> (e: Wan2gpError)
        ensures
            e == Wan2gpError::Other(request_error_message(*err)),
    {
        Wan2gpError::Other(request_error_display(err))
    }

    /// The human-readable text of the error.
    pub fn to_string(&self) -> (s: String)
        ensures
            s@ == error_text(*self),
    {
        match self {
            Wan2gpError::ConnectionFailed(msg) => {
                let mut s = String::from_str("Wan2GP bridge connection failed: ");
                s.append(msg.as_str());
                s
            },
            Wan2gpError::HttpError { status, message } => {
                let mut s = String::from_str("Wan2GP HTTP error ");
                let code = u64_to_decimal(*status as u64);
                s.append(code.as_str());
                s.append(": ");
                s.append(message.as_str());
                s
            },
            Wan2gpError::ParseError(msg) => {
                let mut s = String::from_str("Wan2GP response parse error: ");
                s.append(msg.as_str());
                s
            },
            Wan2gpError::GenerationFailed(msg) => {
                let mut s = String::from_str("Wan2GP generation failed: ");
                s.append(msg.as_str());
                s
            },
            Wan2gpError::Timeout => String::from_str("Wan2GP generation timed out"),
            Wan2gpError::Cancelled => String::from_str("Wan2GP generation was cancelled"),
            Wan2gpError::Other(msg) => {
                let mut s = String::from_str("Wan2GP error: ");
                s.append(msg.as_str());
                s
            },
        }
    }
}

impl From<reqwest::Error> for Wan2gpError {
    /// A failed HTTP request: a connection failure, or any other failure
    /// kept by the request error's display text.
    fn from(err: reqwest::Error) -> (e: Self) {
        let is_connect = request_error_is_connect(&err);
        let message = request_error_display(&err);
        Self::from_transport_flags(is_connect, message)
    }
}

impl vstd::std_specs::convert::FromSpecImpl<reqwest::Error> for Wan2gpError {
    open spec fn obeys_from_spec() -> bool {
        true
    }

    open spec fn from_spec(err: reqwest::Error) -> Self {
        transport_error(reports_connect(err), request_error_message(err))
    }
}

impl From<serde_json::Error> for Wan2gpError {
    /// A body that is not JSON of the expected shape, kept by the JSON
    /// error's display text.
    fn from(err: serde_json::Error) -> (e: Self) {
        Wan2gpError::ParseError(json_error_display(&err))
    }
}

impl vstd::std_specs::convert::FromSpecImpl<serde_json::Error> for Wan2gpError {
    open spec fn obeys_from_spec() -> bool {
        true
    }

    open spec fn from_spec(err: serde_json::Error) -> Self {
        Wan2gpError::ParseError(json_error_message(err))
    }
}

} // verus!
