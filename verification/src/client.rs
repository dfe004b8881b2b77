//! What a fetcher is configured with.

use vstd::prelude::*;

use crate::pairs::names_ascending;

verus! {

/// The resolved request settings of a fetcher.
#[derive(Debug, Clone)]
pub struct RequestProfile {
    /// Default headers, each name once, in ascending order.
    pub headers: Vec<(String, String)>,
    /// Request timeout in milliseconds.
    pub timeout_ms: u64,
    /// How many times a failed request is retried.
    pub max_retries: u32,
}

impl RequestProfile {
    /// The headers hold each name once, in ascending order.
    pub open spec fn wf(&self) -> bool {
        names_ascending(self.headers.deep_view())
    }
}

/// How many times a request is sent at most: once, then once per retry
/// (`u32::MAX` at most).
pub fn request_attempts(max_retries: u32) -> (attempts: u32)
    ensures
        attempts == max_retries.saturating_add(1),
{
    max_retries.saturating_add(1)
}

/// Whether the failure of attempt `attempt` (counted from zero) is tried
/// again: it was a connection failure or a timeout, and another attempt
/// remains.
pub fn retry_after_failure(attempt: u32, max_retries: u32, transient: bool) -> (retry: bool)
    ensures
        retry == (transient && attempt + 1 < max_retries.saturating_add(1)),
{
    let attempts = request_attempts(max_retries);
    transient && (attempt as u64) + 1 < attempts as u64
}

} // verus!
