//! Review agent: tools that read the request and take the result, the
//! reasoning loop that drives them, and the texts that seed the conversation.

pub mod agent;
pub mod mcp_review_tools;
pub mod prompts;
pub mod review_tools;

pub use agent::{finish_review, DecisionReply, LoopStep, Message, ProposedCall, ReasoningLoop, Role};
pub use mcp_review_tools::McpReviewToolSource;
pub use prompts::{pr_url_to_user_message, review_input_to_user_message, REVIEW_SYSTEM_PROMPT};
pub use review_tools::{ReviewToolSource, ReviewTools, TOOL_GET_PR_CONTEXT, TOOL_SUBMIT_REVIEW};
