//! The error type of the library.

use vstd::prelude::*;

verus! {

/// Errors reported by the request builders and scrapers.
#[derive(Debug, Clone, PartialEq, Eq)]
pub enum AppError {
    /// A request could not be built from the given configuration.
    InvalidRequestConfig(String),
    /// The upstream service answered with something unusable.
    UpstreamResponse {
        /// HTTP status code, when one was received.
        status: Option<u16>,
        /// Description of the problem.
        message: String,
    },
}

impl AppError {
    /// The message of an `InvalidRequestConfig` error.
    pub open spec fn config_message(self) -> Option<Seq<char>> {
        match self {
            AppError::InvalidRequestConfig(message) => Some(message@),
            _ => None,
        }
    }

    /// The message of an `UpstreamResponse` error without status.
    pub open spec fn upstream_message(self) -> Option<Seq<char>> {
        match self {
            AppError::UpstreamResponse { status: None, message } => Some(message@),
            _ => None,
        }
    }
}

/// An `UpstreamResponse` error without status.
pub fn upstream_error(message: String) -> (e: AppError)
    ensures
        e.upstream_message() == Some(message@),
{
    AppError::UpstreamResponse { status: None, message }
}

} // verus!
