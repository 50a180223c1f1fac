//! Review agent: runs the review of one request and returns its result.

use vstd::prelude::*;

use crate::pr_url::PrUrl;
use crate::review_result::ReviewResult;

verus! {

/// `std::path::Path`, carried as an opaque value to the review agent.
#[verifier::external_type_specification]
#[verifier::external_body]
pub struct ExPath(std::path::Path);

/// Runs the agent review of a PR/MR. The agent decides when to fetch content
/// and when to submit.
pub trait AgentReviewer: Send + Sync {
    /// Performs the review; `project_path` may give the agent a checkout of
    /// the repository.
    fn review(&self, project_path: Option<&std::path::Path>, pr: &PrUrl) -> Result<
        ReviewResult,
        ReviewError,
    >;
}

/// Errors from the agent review step.
#[derive(Debug)]
pub struct ReviewError {
    pub message: String,
}

} // verus!
