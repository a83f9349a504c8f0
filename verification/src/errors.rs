//! Error taxonomy for query construction, transport and response resolution.

use vstd::prelude::*;

verus! {

/// Every failure the library can report.
///
/// Each variant names one failure class: a rejected constructor argument,
/// a configuration that yields an unparsable URL, a failed network call,
/// a body that does not match the schema its status class demands, the
/// remote's rate limit, and every other remote error.
#[derive(Debug, Clone)]
pub enum AppError {
    /// Malformed input to a constructor, such as an empty seed string.
    InvalidArgument { message: String },
    /// The configured base URL does not produce a parsable request URL.
    UrlConstruction { message: String },
    /// The underlying HTTP call could not complete.
    Http { message: String },
    /// The response body does not match the expected schema for its
    /// status class; carries the raw body as a diagnostic.
    DeserializeJson { message: String },
    /// The remote reported code 429 in its error envelope.
    RateLimitExceeded { message: String },
    /// Any other non-success remote response, with the remote's own code,
    /// message, and optional machine-readable reason.
    GoogleApi { code: u16, message: String, reason: Option<String> },
}

} // verus!
