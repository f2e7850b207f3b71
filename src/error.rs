use vstd::prelude::*;

use url::ParseError;

verus! {

/// Why a request failed.
#[derive(Debug)]
pub enum FtClientError {
    /// The server refused the request for exceeding its rate limit.
    RateLimitError(String),
    /// A request address could not be built.
    UrlParseError(ParseError),
    /// Any other failure, with its description.
    Other(String),
}

impl FtClientError {
    /// Whether the failure is a rate-limit refusal, to be retried on the same page.
    pub fn is_rate_limited(&self) -> (r: bool)
        ensures
            r == self is RateLimitError,
    {
        match self {
            FtClientError::RateLimitError(_) => true,
            _ => false,
        }
    }
}

} // verus!
