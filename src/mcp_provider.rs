//! Content provider: fetches a request's content and publishes a result.
//!
//! Implemented by clients of the hosting platforms; tests use a mock that
//! returns a fixed input.

use vstd::prelude::*;

use crate::pr_url::PrUrl;
use crate::review_input::ReviewInput;
use crate::review_result::ReviewResult;

verus! {

/// Fetches PR/MR content from GitHub or GitLab and may post a review back.
pub trait McpProvider: Send + Sync {
    /// Fetches the review input of the given request.
    fn fetch(&self, pr: &PrUrl) -> Result<ReviewInput, McpError>;

    /// Posts the review result to the request.
    fn post_review(&self, pr: &PrUrl, result: &ReviewResult) -> Result<(), McpError>;
}

/// Errors from provider operations (network, auth, parse).
#[derive(Debug)]
pub struct McpError {
    pub message: String,
}

} // verus!
