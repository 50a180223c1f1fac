//! Agent-driven review of pull and merge requests.
//!
//! A review request is identified by a [`PrUrl`]; a reasoning agent reads the
//! request's content through tools and submits one [`ReviewResult`], which is
//! then published through the content provider.

pub mod agent_reviewer;
pub mod cli;
pub mod mcp_provider;
pub mod pr_url;
pub mod review_agent;
pub mod review_input;
pub mod review_pipeline;
pub mod review_result;
pub mod text;

pub use agent_reviewer::AgentReviewer;
pub use mcp_provider::McpProvider;
pub use pr_url::PrUrl;
pub use review_input::ReviewInput;
pub use review_pipeline::ReviewPipeline;
pub use review_result::ReviewResult;
