use quick_review::agent_reviewer::{AgentReviewer, ReviewError};
use quick_review::mcp_provider::{McpError, McpProvider};
use quick_review::pr_url::{Platform, PrUrl};
use quick_review::review_agent::review_tools::ToolArguments;
use quick_review::review_agent::{
    finish_review, DecisionReply, LoopStep, McpReviewToolSource, ProposedCall, ReasoningLoop,
    Role, REVIEW_SYSTEM_PROMPT,
};
use quick_review::review_agent::review_tools::ResultSlot;
use quick_review::review_input::ReviewInput;
use quick_review::review_pipeline::{fetch_stage, publish_outcome, review_stage, PipelineError};
use quick_review::review_result::{LineComment, ReviewResult};
use quick_review::ReviewPipeline;
use std::sync::atomic::{AtomicUsize, Ordering};
use std::sync::Arc;

struct Provider {
    fetches: Arc<AtomicUsize>,
    fail_first_fetch: bool,
}

impl McpProvider for Provider {
    fn fetch(&self, _pr: &PrUrl) -> Result<ReviewInput, McpError> {
        let n = self.fetches.fetch_add(1, Ordering::SeqCst);
        if self.fail_first_fetch && n == 0 {
            return Err(McpError {
                message: "unreachable host".to_string(),
            });
        }
        Ok(ReviewInput::new().with_title("Add widgets").with_diff("+fn widget() {}"))
    }

    fn post_review(&self, _pr: &PrUrl, _result: &ReviewResult) -> Result<(), McpError> {
        Ok(())
    }
}

fn acme() -> PrUrl {
    PrUrl::new(
        Platform::GitHub,
        "acme".to_string(),
        "widgets".to_string(),
        "42".to_string(),
    )
}

fn start(fail_first_fetch: bool) -> (ReasoningLoop<McpReviewToolSource<Provider>>, Arc<AtomicUsize>) {
    let fetches = Arc::new(AtomicUsize::new(0));
    let p = Provider {
        fetches: fetches.clone(),
        fail_first_fetch,
    };
    (ReasoningLoop::for_request(p, acme(), 10), fetches)
}

fn call(name: &str, part: Option<&str>, summary: Option<&str>, comments: Vec<LineComment>) -> ProposedCall {
    ProposedCall {
        name: name.to_string(),
        arguments: ToolArguments {
            part: part.map(|p| p.to_string()),
            summary: summary.map(|s| s.to_string()),
            line_comments: comments,
        },
        id: None,
    }
}

fn reply(calls: Vec<ProposedCall>) -> DecisionReply {
    DecisionReply {
        content: String::new(),
        tool_calls: calls,
    }
}

#[test]
fn conversation_is_seeded_with_prompt_and_request() {
    let (lp, _) = start(false);
    let m = lp.messages();
    assert_eq!(m.len(), 2);
    assert_eq!(m[0].role, Role::System);
    assert_eq!(m[0].content, REVIEW_SYSTEM_PROMPT);
    assert_eq!(m[1].role, Role::User);
    assert!(m[1].content.starts_with("Review the GitHub PR: acme / widgets #42."));
    assert!(lp.thinking());
}

#[test]
fn submission_on_first_round_gives_result() {
    let (mut lp, _) = start(false);
    let step = lp.on_reply(reply(vec![call("submit_review", None, Some("Looks good."), vec![])]));
    assert_eq!(step, LoopStep::Done);
    let v = lp.finish().unwrap();
    assert_eq!(v.summary, "Looks good.");
    assert!(v.line_comments.is_empty());
}

#[test]
fn context_then_submission_gives_one_comment() {
    let (mut lp, fetches) = start(false);
    let step = lp.on_reply(reply(vec![call("get_pr_context", Some("diff"), None, vec![])]));
    assert_eq!(step, LoopStep::Think);
    assert_eq!(lp.messages().last().unwrap().content, "+fn widget() {}");
    let c = LineComment {
        path: "src/lib.rs".to_string(),
        line: 10,
        body: "Use Option here.".to_string(),
    };
    let step = lp.on_reply(reply(vec![call("submit_review", None, Some("A few nits."), vec![c])]));
    assert_eq!(step, LoopStep::Done);
    assert_eq!(fetches.load(Ordering::SeqCst), 1);
    let v = lp.finish().unwrap();
    assert_eq!(v.summary, "A few nits.");
    assert_eq!(v.line_comments.len(), 1);
    assert_eq!(v.line_comments[0].path, "src/lib.rs");
    assert_eq!(v.line_comments[0].line, 10);
    assert_eq!(v.line_comments[0].body, "Use Option here.");
}

#[test]
fn empty_path_comment_is_dropped_from_result() {
    let (mut lp, _) = start(false);
    let c = LineComment {
        path: String::new(),
        line: 5,
        body: "x".to_string(),
    };
    lp.on_reply(reply(vec![call("submit_review", None, Some("Summary"), vec![c])]));
    let v = lp.finish().unwrap();
    assert_eq!(v.summary, "Summary");
    assert!(v.line_comments.is_empty());
}

#[test]
fn plain_text_answer_is_non_compliance() {
    let (mut lp, _) = start(false);
    let step = lp.on_reply(DecisionReply {
        content: "I think it is fine.".to_string(),
        tool_calls: vec![],
    });
    assert_eq!(step, LoopStep::Done);
    let e = lp.finish().unwrap_err();
    assert_eq!(e.message, "review agent did not call submit_review");
}

#[test]
fn context_only_review_is_non_compliance() {
    let (mut lp, _) = start(false);
    assert_eq!(
        lp.on_reply(reply(vec![call("get_pr_context", Some("title"), None, vec![])])),
        LoopStep::Think
    );
    assert_eq!(lp.on_reply(reply(vec![])), LoopStep::Done);
    assert_eq!(
        lp.finish().unwrap_err().message,
        "review agent did not call submit_review"
    );
}

#[test]
fn failed_fetch_is_shown_and_retried() {
    let (mut lp, fetches) = start(true);
    let step = lp.on_reply(reply(vec![call("get_pr_context", Some("title"), None, vec![])]));
    assert_eq!(step, LoopStep::Think);
    assert_eq!(
        lp.messages().last().unwrap().content,
        "invalid input: MCP fetch failed: unreachable host"
    );
    lp.on_reply(reply(vec![call("get_pr_context", Some("title"), None, vec![])]));
    assert_eq!(lp.messages().last().unwrap().content, "Add widgets");
    assert_eq!(fetches.load(Ordering::SeqCst), 2);
}

#[test]
fn malformed_submission_does_not_halt() {
    let (mut lp, _) = start(false);
    let step = lp.on_reply(reply(vec![call("submit_review", None, None, vec![])]));
    assert_eq!(step, LoopStep::Think);
    assert_eq!(
        lp.messages().last().unwrap().content,
        "invalid input: submit_review: missing summary"
    );
    let step = lp.on_reply(reply(vec![call("submit_review", None, Some("Fixed."), vec![])]));
    assert_eq!(step, LoopStep::Done);
    assert_eq!(lp.finish().unwrap().summary, "Fixed.");
}

#[test]
fn transport_failure_is_fatal() {
    let (mut lp, _) = start(false);
    lp.on_reply(reply(vec![call("submit_review", None, Some("early"), vec![])]));
    let (mut lp2, _) = start(false);
    lp2.on_reply(reply(vec![call("get_pr_context", Some("diff"), None, vec![])]));
    let step = lp2.on_failure("connection reset".to_string());
    assert_eq!(step, LoopStep::Aborted);
    assert!(!lp2.thinking());
    assert_eq!(lp2.finish().unwrap_err().message, "connection reset");
    assert_eq!(lp.finish().unwrap().summary, "early");
}

#[test]
fn round_bound_aborts() {
    let fetches = Arc::new(AtomicUsize::new(0));
    let p = Provider {
        fetches,
        fail_first_fetch: false,
    };
    let mut lp = ReasoningLoop::for_request(p, acme(), 2);
    assert_eq!(
        lp.on_reply(reply(vec![call("get_pr_context", Some("title"), None, vec![])])),
        LoopStep::Think
    );
    assert_eq!(
        lp.on_reply(reply(vec![call("get_pr_context", Some("title"), None, vec![])])),
        LoopStep::Aborted
    );
    assert_eq!(
        lp.finish().unwrap_err().message,
        "review agent stopped after 2 rounds without finishing"
    );
}

#[test]
fn later_submissions_in_one_round_are_discarded() {
    let (mut lp, _) = start(false);
    let step = lp.on_reply(reply(vec![
        call("submit_review", None, Some("one"), vec![]),
        call("submit_review", None, Some("two"), vec![]),
    ]));
    assert_eq!(step, LoopStep::Done);
    assert_eq!(lp.messages().len(), 5);
    assert_eq!(lp.finish().unwrap().summary, "one");
}

#[test]
fn finish_review_reads_slot() {
    assert_eq!(
        finish_review(ResultSlot::new()).unwrap_err().message,
        "review agent did not call submit_review"
    );
    let mut slot = ResultSlot::new();
    slot.offer(ReviewResult::new().with_summary("s"));
    assert_eq!(finish_review(slot).unwrap().summary, "s");
}

struct FixedAgent {
    fail: bool,
}

impl AgentReviewer for FixedAgent {
    fn review(
        &self,
        _project_path: Option<&std::path::Path>,
        _pr: &PrUrl,
    ) -> Result<ReviewResult, ReviewError> {
        if self.fail {
            Err(ReviewError {
                message: "no result".to_string(),
            })
        } else {
            Ok(ReviewResult::new().with_summary("fine"))
        }
    }
}

#[test]
fn pipeline_runs_stages_and_names_failures() {
    let p = Provider {
        fetches: Arc::new(AtomicUsize::new(0)),
        fail_first_fetch: false,
    };
    let pipeline = ReviewPipeline::new(p, FixedAgent { fail: false })
        .with_project_path(std::path::PathBuf::from("/tmp/repo"));
    assert_eq!(pipeline.run(&acme()).unwrap().summary, "fine");

    let p = Provider {
        fetches: Arc::new(AtomicUsize::new(0)),
        fail_first_fetch: true,
    };
    let pipeline = ReviewPipeline::new(p, FixedAgent { fail: false });
    let e = pipeline.run(&acme()).unwrap_err();
    assert_eq!(e.describe(), "fetch: unreachable host");

    let p = Provider {
        fetches: Arc::new(AtomicUsize::new(0)),
        fail_first_fetch: false,
    };
    let pipeline = ReviewPipeline::new(p, FixedAgent { fail: true });
    match pipeline.run(&acme()) {
        Err(PipelineError::Review(e)) => assert_eq!(e.message, "no result"),
        other => panic!("unexpected {:?}", other.map(|r| r.summary)),
    }
    let e = PipelineError::Post(McpError {
        message: "denied".to_string(),
    });
    assert_eq!(e.describe(), "post: denied");
}

#[test]
fn review_over_input_in_hand() {
    let input = ReviewInput::new().with_title("Bump deps").with_diff("-a\n+b");
    let mut lp = ReasoningLoop::for_input(input, 5);
    assert_eq!(
        lp.messages()[1].content,
        "Title: Bump deps\n\nDescription: \n\nDiff:\n-a\n+b\n\nFiles (0): (none)"
    );
    assert_eq!(
        lp.on_reply(reply(vec![call("get_pr_context", Some("title"), None, vec![])])),
        LoopStep::Think
    );
    assert_eq!(lp.messages().last().unwrap().content, "Bump deps");
    assert_eq!(
        lp.on_reply(reply(vec![call("submit_review", None, Some("Fine to merge."), vec![])])),
        LoopStep::Done
    );
    assert_eq!(lp.messages().last().unwrap().content, "Review submitted.");
    assert_eq!(lp.finish().unwrap().summary, "Fine to merge.");
}

#[test]
fn generic_start_uses_given_message() {
    let tools = quick_review::review_agent::ReviewToolSource::new(ReviewInput::new(), ResultSlot::new());
    let lp = ReasoningLoop::start(tools, "hello".to_string(), 1);
    assert_eq!(lp.messages()[1].content, "hello");
    assert!(lp.thinking());
}

#[test]
fn pipeline_stage_helpers_map_each_failure() {
    assert!(fetch_stage(Ok(ReviewInput::new())).is_ok());
    match fetch_stage(Err(McpError {
        message: "f".to_string(),
    })) {
        Err(PipelineError::Fetch(e)) => assert_eq!(e.message, "f"),
        _ => panic!("expected a fetch failure"),
    }
    assert_eq!(
        review_stage(Ok(ReviewResult::new().with_summary("s")))
            .unwrap()
            .summary,
        "s"
    );
    match review_stage(Err(ReviewError {
        message: "r".to_string(),
    })) {
        Err(PipelineError::Review(e)) => assert_eq!(e.message, "r"),
        _ => panic!("expected a review failure"),
    }
    match publish_outcome(
        ReviewResult::new(),
        Err(McpError {
            message: "p".to_string(),
        }),
    ) {
        Err(PipelineError::Post(e)) => assert_eq!(e.message, "p"),
        _ => panic!("expected a post failure"),
    }
}
