//! What can go wrong while a listing is resolved.

use crate::text::{concat_chars, decimal_digits, decimal_text, from_chars, to_chars};
use vstd::prelude::*;

verus! {

/// Why the marketplace client gave no result.
#[derive(Debug, Clone)]
pub enum BoothClientError {
    /// The address is no URL, or none of a product page of the marketplace.
    InvalidUrl { url: String },
    /// The request did not get through; `message` is what the transport said.
    NetworkError { message: String },
    /// The body of a successful response could not be read.
    ResponseRead { message: String },
    /// The server answered 429 on the last attempt.
    RateLimited,
    /// The attempts ran out and none of them left an error behind.
    MaxRetriesExceeded,
    /// The content does not have the expected shape.
    ParseError,
    /// A required part was not found; `element` says which.
    ElementNotFound { element: String },
    /// The server answered with a status that is neither a success nor 429.
    HttpError { status: u16 },
}

/// An error as a mathematical value.
pub enum ClientFailure {
    InvalidUrl { url: Seq<char> },
    NetworkError { message: Seq<char> },
    ResponseRead { message: Seq<char> },
    RateLimited,
    MaxRetriesExceeded,
    ParseError,
    ElementNotFound { element: Seq<char> },
    HttpError { status: u16 },
}

impl View for BoothClientError {
    type V = ClientFailure;

    open spec fn view(&self) -> ClientFailure {
        match self {
            BoothClientError::InvalidUrl { url } => ClientFailure::InvalidUrl { url: url@ },
            BoothClientError::NetworkError { message } => ClientFailure::NetworkError {
                message: message@,
            },
            BoothClientError::ResponseRead { message } => ClientFailure::ResponseRead {
                message: message@,
            },
            BoothClientError::RateLimited => ClientFailure::RateLimited,
            BoothClientError::MaxRetriesExceeded => ClientFailure::MaxRetriesExceeded,
            BoothClientError::ParseError => ClientFailure::ParseError,
            BoothClientError::ElementNotFound { element } => ClientFailure::ElementNotFound {
                element: element@,
            },
            BoothClientError::HttpError { status } => ClientFailure::HttpError { status: *status },
        }
    }
}

impl BoothClientError {
    /// A copy of the error.
    pub fn copy(&self) -> (copy: BoothClientError)
        ensures
            copy@ == self@,
    {
        match self {
            BoothClientError::InvalidUrl { url } => BoothClientError::InvalidUrl { url: url.clone() },
            BoothClientError::NetworkError { message } => BoothClientError::NetworkError {
                message: message.clone(),
            },
            BoothClientError::ResponseRead { message } => BoothClientError::ResponseRead {
                message: message.clone(),
            },
            BoothClientError::RateLimited => BoothClientError::RateLimited,
            BoothClientError::MaxRetriesExceeded => BoothClientError::MaxRetriesExceeded,
            BoothClientError::ParseError => BoothClientError::ParseError,
            BoothClientError::ElementNotFound { element } => BoothClientError::ElementNotFound {
                element: element.clone(),
            },
            BoothClientError::HttpError { status } => BoothClientError::HttpError { status: *status },
        }
    }
}

/// The four kinds of failure of a resolution.
#[derive(Debug, Clone, Copy, PartialEq, Eq, Structural)]
pub enum FailureKind {
    /// The address is malformed or not the marketplace's: to be corrected
    /// by whoever gave it.
    Input,
    /// The connection failed, timed out, or the server asked for patience:
    /// worth another attempt.
    Transient,
    /// The server answered with a status that settles the matter.
    Definitive,
    /// What came back does not have the expected shape, or lacks a
    /// required part.
    Shape,
}

impl ClientFailure {
    /// The kind of the failure.
    pub open spec fn kind(self) -> FailureKind {
        match self {
            ClientFailure::InvalidUrl { .. } => FailureKind::Input,
            ClientFailure::NetworkError { .. } => FailureKind::Transient,
            ClientFailure::ResponseRead { .. } => FailureKind::Transient,
            ClientFailure::RateLimited => FailureKind::Transient,
            ClientFailure::MaxRetriesExceeded => FailureKind::Transient,
            ClientFailure::HttpError { .. } => FailureKind::Definitive,
            ClientFailure::ParseError => FailureKind::Shape,
            ClientFailure::ElementNotFound { .. } => FailureKind::Shape,
        }
    }

    /// The failure in words.
    pub open spec fn message(self) -> Seq<char> {
        match self {
            ClientFailure::InvalidUrl { url } => "Invalid BOOTH URL: "@ + url,
            ClientFailure::NetworkError { message } => "Network request failed: "@ + message,
            ClientFailure::ResponseRead { message } => "Response read error: "@ + message,
            ClientFailure::RateLimited => "Rate limited (429), retrying..."@,
            ClientFailure::MaxRetriesExceeded => "Max retries exceeded"@,
            ClientFailure::ParseError => "Failed to parse HTML content"@,
            ClientFailure::ElementNotFound { element } => "Required element not found: "@ + element,
            ClientFailure::HttpError { status } => "HTTP error: "@ + decimal_digits(status as nat),
        }
    }
}

/// `prefix` followed by `rest`.
fn prefixed(prefix: &str, rest: &Vec<char>) -> (text: String)
    ensures
        text@ == prefix@ + rest@,
{
    from_chars(&concat_chars(&to_chars(prefix), rest))
}

impl BoothClientError {
    /// The kind of the failure.
    pub fn kind(&self) -> (kind: FailureKind)
        ensures
            kind == self@.kind(),
    {
        match self {
            BoothClientError::InvalidUrl { .. } => FailureKind::Input,
            BoothClientError::NetworkError { .. } => FailureKind::Transient,
            BoothClientError::ResponseRead { .. } => FailureKind::Transient,
            BoothClientError::RateLimited => FailureKind::Transient,
            BoothClientError::MaxRetriesExceeded => FailureKind::Transient,
            BoothClientError::HttpError { .. } => FailureKind::Definitive,
            BoothClientError::ParseError => FailureKind::Shape,
            BoothClientError::ElementNotFound { .. } => FailureKind::Shape,
        }
    }

    /// Whether the same request may succeed when it is made again.
    pub fn is_retryable(&self) -> (retryable: bool)
        ensures
            retryable == (self@.kind() == FailureKind::Transient),
    {
        self.kind() == FailureKind::Transient
    }

    /// The failure in words, for a log or a dialog.
    pub fn message(&self) -> (text: String)
        ensures
            text@ == self@.message(),
    {
        match self {
            BoothClientError::InvalidUrl { url } => prefixed(
                "Invalid BOOTH URL: ",
                &to_chars(url.as_str()),
            ),
            BoothClientError::NetworkError { message } => prefixed(
                "Network request failed: ",
                &to_chars(message.as_str()),
            ),
            BoothClientError::ResponseRead { message } => prefixed(
                "Response read error: ",
                &to_chars(message.as_str()),
            ),
            BoothClientError::RateLimited => "Rate limited (429), retrying...".to_string(),
            BoothClientError::MaxRetriesExceeded => "Max retries exceeded".to_string(),
            BoothClientError::ParseError => "Failed to parse HTML content".to_string(),
            BoothClientError::ElementNotFound { element } => prefixed(
                "Required element not found: ",
                &to_chars(element.as_str()),
            ),
            BoothClientError::HttpError { status } => {
                let status_number: u64 = *status as u64;
                prefixed("HTTP error: ", &decimal_text(status_number))
            },
        }
    }
}


} // verus!
