//! Pipeline that runs one review: fetch, review by the agent, publish.

use vstd::prelude::*;

use crate::agent_reviewer::{AgentReviewer, ReviewError};
use crate::mcp_provider::{McpError, McpProvider};
use crate::pr_url::PrUrl;
use crate::review_input::ReviewInput;
use crate::review_result::ReviewResult;

verus! {

/// `std::path::PathBuf`, carried as an opaque value to the review agent.
#[verifier::external_type_specification]
#[verifier::external_body]
pub struct ExPathBuf(std::path::PathBuf);

/// Relies on `PathBuf::as_path`: borrows the path; nothing is assumed of it.
pub assume_specification[ std::path::PathBuf::as_path ](p: &std::path::PathBuf) -> &std::path::Path;

/// Runs the full review flow for one PR/MR.
pub struct ReviewPipeline<M, A> {
    pub mcp: M,
    pub agent: A,
    pub project_path: Option<std::path::PathBuf>,
}

/// Aggregated error for the pipeline, by stage.
#[derive(Debug)]
pub enum PipelineError {
    Fetch(McpError),
    Review(ReviewError),
    Post(McpError),
}

pub open spec fn pipeline_error_text(e: PipelineError) -> Seq<char> {
    match e {
        PipelineError::Fetch(m) => "fetch: "@ + m.message@,
        PipelineError::Review(m) => "review: "@ + m.message@,
        PipelineError::Post(m) => "post: "@ + m.message@,
    }
}

impl PipelineError {
    /// The error as text, prefixed by its stage.
    pub fn describe(&self) -> (r: String)
        ensures
            r@ == pipeline_error_text(*self),
    {
        let mut s = String::new();
        match self {
            PipelineError::Fetch(e) => {
                s.append("fetch: ");
                s.append(e.message.as_str());
            },
            PipelineError::Review(e) => {
                s.append("review: ");
                s.append(e.message.as_str());
            },
            PipelineError::Post(e) => {
                s.append("post: ");
                s.append(e.message.as_str());
            },
        }
        s
    }
}

/// The run's answer once the provider has answered the fetch: go on, or a
/// `Fetch` failure.
pub fn fetch_stage(fetched: Result<ReviewInput, McpError>) -> (r: Result<(), PipelineError>)
    ensures
        fetched is Ok ==> r is Ok,
        fetched matches Err(e) ==> r == Err::<(), PipelineError>(PipelineError::Fetch(e)),
{
    match fetched {
        Ok(_) => Ok(()),
        Err(e) => Err(PipelineError::Fetch(e)),
    }
}

/// The run's answer once the agent has answered: its result to publish, or
/// a `Review` failure.
pub fn review_stage(reviewed: Result<ReviewResult, ReviewError>) -> (r: Result<
    ReviewResult,
    PipelineError,
>)
    ensures
        reviewed matches Ok(v) ==> r == Ok::<ReviewResult, PipelineError>(v),
        reviewed matches Err(e) ==> r == Err::<ReviewResult, PipelineError>(
            PipelineError::Review(e),
        ),
{
    match reviewed {
        Ok(v) => Ok(v),
        Err(e) => Err(PipelineError::Review(e)),
    }
}

/// The run's answer once the provider has answered the publication of
/// `result`: the result when it was posted, else a `Post` failure.
pub fn publish_outcome(result: ReviewResult, posted: Result<(), McpError>) -> (r: Result<
    ReviewResult,
    PipelineError,
>)
    ensures
        posted is Ok ==> r == Ok::<ReviewResult, PipelineError>(result),
        posted matches Err(e) ==> r == Err::<ReviewResult, PipelineError>(PipelineError::Post(e)),
{
    match posted {
        Ok(()) => Ok(result),
        Err(e) => Err(PipelineError::Post(e)),
    }
}

impl<M: McpProvider, A: AgentReviewer> ReviewPipeline<M, A> {
    /// Creates a pipeline with the given provider and review agent.
    pub fn new(mcp: M, agent: A) -> (r: Self)
        ensures
            r.mcp == mcp,
            r.agent == agent,
            r.project_path is None,
    {
        ReviewPipeline { mcp, agent, project_path: None }
    }

    /// Sets the project path handed to the review agent.
    pub fn with_project_path(self, path: std::path::PathBuf) -> (r: Self)
        ensures
            r.mcp == self.mcp,
            r.agent == self.agent,
            r.project_path == Some(path),
    {
        ReviewPipeline { project_path: Some(path), ..self }
    }

    /// Fetches the request's content, runs the agent review and posts the
    /// result; returns the result once posted. The fetch only checks that the
    /// content can be had: the agent reads it through its own tools. A
    /// failure stops the run at its stage and is reported with that stage,
    /// as [`fetch_stage`], [`review_stage`] and [`publish_outcome`] state.
    pub fn run(&self, pr: &PrUrl) -> (r: Result<ReviewResult, PipelineError>) {
        let fetched = self.mcp.fetch(pr);
        if let Err(e) = fetch_stage(fetched) {
            return Err(e);
        }
        let path = match &self.project_path {
            Some(p) => Some(p.as_path()),
            None => None,
        };
        let result = match review_stage(self.agent.review(path, pr)) {
            Err(e) => {
                return Err(e);
            },
            Ok(v) => v,
        };
        let posted = self.mcp.post_review(pr, &result);
        publish_outcome(result, posted)
    }
}

} // verus!
