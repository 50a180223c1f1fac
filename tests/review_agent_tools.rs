use quick_review::mcp_provider::{McpError, McpProvider};
use quick_review::review_agent::mcp_review_tools::{after_fetch, after_post};
use quick_review::pr_url::{Platform, PrUrl};
use quick_review::review_agent::review_tools::{
    build_review_result, filter_line_comments, get_part, tool_catalog, ResultSlot,
    ToolArguments, ToolSourceError, GET_PR_CONTEXT_SCHEMA,
};
use quick_review::review_agent::{McpReviewToolSource, ReviewToolSource};
use quick_review::review_input::{FileContent, ReviewInput};
use quick_review::review_result::{LineComment, ReviewResult};
use std::sync::atomic::{AtomicUsize, Ordering};
use std::sync::Arc;

fn summary_args(summary: &str, comments: Vec<LineComment>) -> ToolArguments {
    ToolArguments {
        part: None,
        summary: Some(summary.to_string()),
        line_comments: comments,
    }
}

fn part_args(part: &str) -> ToolArguments {
    ToolArguments {
        part: Some(part.to_string()),
        summary: None,
        line_comments: vec![],
    }
}

fn comment(path: &str, line: u32, body: &str) -> LineComment {
    LineComment {
        path: path.to_string(),
        line,
        body: body.to_string(),
    }
}

#[test]
fn submit_review_summary_only_writes_to_slot() {
    let input = ReviewInput::new().with_title("PR");
    let mut tools = ReviewToolSource::new(input, ResultSlot::new());

    let args = summary_args("Looks good.", vec![]);
    let _ = tools.call_tool("submit_review", args).unwrap();

    let result = tools.result_slot().get().expect("slot should have result");
    assert_eq!(result.summary, "Looks good.");
    assert!(result.line_comments.is_empty());
}

#[test]
fn submit_review_with_line_comments_writes_to_slot() {
    let input = ReviewInput::new();
    let mut tools = ReviewToolSource::new(input, ResultSlot::new());

    let args = summary_args(
        "A few nits.",
        vec![comment("src/lib.rs", 10, "Use Option here.")],
    );
    let _ = tools.call_tool("submit_review", args).unwrap();

    let result = tools.result_slot().get().expect("slot should have result");
    assert_eq!(result.summary, "A few nits.");
    assert_eq!(result.line_comments.len(), 1);
    assert_eq!(result.line_comments[0].path, "src/lib.rs");
    assert_eq!(result.line_comments[0].line, 10);
    assert_eq!(result.line_comments[0].body, "Use Option here.");
}

#[test]
fn submit_acknowledges_with_fixed_text() {
    let mut tools = ReviewToolSource::new(ReviewInput::new(), ResultSlot::new());
    let c = tools.call_tool("submit_review", summary_args("ok", vec![])).unwrap();
    assert_eq!(c.text, "Review submitted.");
}

#[test]
fn only_first_submission_is_kept() {
    let mut tools = ReviewToolSource::new(ReviewInput::new(), ResultSlot::new());
    for s in ["first", "second", "third"] {
        let c = tools.call_tool("submit_review", summary_args(s, vec![])).unwrap();
        assert_eq!(c.text, "Review submitted.");
    }
    let slot = tools.into_result_slot();
    assert_eq!(slot.into_result().unwrap().summary, "first");
}

#[test]
fn slot_offer_reports_whether_stored() {
    let mut slot = ResultSlot::new();
    assert!(!slot.is_filled());
    assert!(slot.offer(ReviewResult::new().with_summary("a")));
    assert!(!slot.offer(ReviewResult::new().with_summary("b")));
    assert_eq!(slot.get().unwrap().summary, "a");
}

#[test]
fn missing_summary_is_invalid_input_and_leaves_slot_empty() {
    let mut tools = ReviewToolSource::new(ReviewInput::new(), ResultSlot::new());
    let args = ToolArguments {
        part: None,
        summary: None,
        line_comments: vec![comment("a.rs", 1, "x")],
    };
    match tools.call_tool("submit_review", args) {
        Err(ToolSourceError::InvalidInput(m)) => assert_eq!(m, "submit_review: missing summary"),
        other => panic!("unexpected {:?}", other),
    }
    assert!(!tools.result_slot().is_filled());
    tools
        .call_tool("submit_review", summary_args("later", vec![]))
        .unwrap();
    assert_eq!(tools.result_slot().get().unwrap().summary, "later");
}

#[test]
fn unknown_tool_is_not_found() {
    let mut tools = ReviewToolSource::new(ReviewInput::new(), ResultSlot::new());
    match tools.call_tool("delete_repo", part_args("title")) {
        Err(ToolSourceError::NotFound(n)) => assert_eq!(n, "delete_repo"),
        other => panic!("unexpected {:?}", other),
    }
    let e = ToolSourceError::NotFound("x".to_string());
    assert_eq!(e.describe(), "tool not found: x");
    let e = ToolSourceError::InvalidInput("y".to_string());
    assert_eq!(e.describe(), "invalid input: y");
}

#[test]
fn invalid_comment_is_dropped_but_summary_kept() {
    let mut tools = ReviewToolSource::new(ReviewInput::new(), ResultSlot::new());
    tools
        .call_tool("submit_review", summary_args("s", vec![comment("", 5, "x")]))
        .unwrap();
    let r = tools.result_slot().get().unwrap();
    assert_eq!(r.summary, "s");
    assert!(r.line_comments.is_empty());
}

#[test]
fn filtering_drops_each_kind_of_invalid_comment_and_keeps_order() {
    let cs = vec![
        comment("a.rs", 1, "one"),
        comment("", 2, "no path"),
        comment("b.rs", 0, "line zero"),
        comment("c.rs", 3, ""),
        comment("d.rs", 4, "four"),
    ];
    let once = filter_line_comments(&cs);
    let paths: Vec<&str> = once.iter().map(|c| c.path.as_str()).collect();
    assert_eq!(paths, vec!["a.rs", "d.rs"]);
    let twice = filter_line_comments(&once);
    assert_eq!(twice.len(), once.len());
    for (a, b) in once.iter().zip(twice.iter()) {
        assert_eq!(a.path, b.path);
        assert_eq!(a.line, b.line);
        assert_eq!(a.body, b.body);
    }
    assert!(filter_line_comments(&vec![]).is_empty());
}

#[test]
fn build_review_result_keeps_summary() {
    let r = build_review_result("sum".to_string(), &vec![comment("x.rs", 7, "b")]);
    assert_eq!(r.summary, "sum");
    assert_eq!(r.line_comments[0].line, 7);
}

fn sample_input() -> ReviewInput {
    ReviewInput::new()
        .with_title("Title here")
        .with_description("Desc")
        .with_diff("@@ -1 +1 @@")
        .with_files(vec![
            FileContent {
                path: "src/a.rs".to_string(),
                diff: Some("d".to_string()),
                content: None,
            },
            FileContent {
                path: "src/b.rs".to_string(),
                diff: None,
                content: None,
            },
        ])
}

#[test]
fn get_pr_context_answers_each_part() {
    let input = sample_input();
    assert_eq!(get_part(&input, "title"), "Title here");
    assert_eq!(get_part(&input, "description"), "Desc");
    assert_eq!(get_part(&input, "diff"), "@@ -1 +1 @@");
    assert_eq!(get_part(&input, "files"), "src/a.rs, src/b.rs");
    assert_eq!(get_part(&input, "owner"), "Unknown part: owner");
    let mut tools = ReviewToolSource::new(input, ResultSlot::new());
    let c = tools.call_tool("get_pr_context", part_args("diff")).unwrap();
    assert_eq!(c.text, "@@ -1 +1 @@");
    let none = ToolArguments {
        part: None,
        summary: None,
        line_comments: vec![],
    };
    let c = tools.call_tool("get_pr_context", none).unwrap();
    assert_eq!(c.text, "Unknown part: ");
}

#[test]
fn catalog_has_two_tools() {
    let specs = tool_catalog();
    assert_eq!(specs.len(), 2);
    assert_eq!(specs[0].name, "get_pr_context");
    assert_eq!(specs[1].name, "submit_review");
    assert_eq!(specs[0].input_schema, GET_PR_CONTEXT_SCHEMA);
    let parsed: serde_json::Value = serde_json::from_str(&specs[1].input_schema).unwrap();
    assert_eq!(parsed["required"][0], "summary");
    assert_eq!(ReviewToolSource::tool_specs().len(), 2);
    let tools = ReviewToolSource::new(ReviewInput::new(), ResultSlot::new());
    assert_eq!(tools.list_tools().unwrap().len(), 2);
}

struct CountingProvider {
    fetches: Arc<AtomicUsize>,
    posts: Arc<AtomicUsize>,
    fail_fetches: usize,
    fail_post: bool,
}

impl McpProvider for CountingProvider {
    fn fetch(&self, _pr: &PrUrl) -> Result<ReviewInput, McpError> {
        let n = self.fetches.fetch_add(1, Ordering::SeqCst);
        if n < self.fail_fetches {
            Err(McpError {
                message: "timeout".to_string(),
            })
        } else {
            Ok(sample_input())
        }
    }

    fn post_review(&self, _pr: &PrUrl, _result: &ReviewResult) -> Result<(), McpError> {
        self.posts.fetch_add(1, Ordering::SeqCst);
        if self.fail_post {
            Err(McpError {
                message: "forbidden".to_string(),
            })
        } else {
            Ok(())
        }
    }
}

fn provider(fail_fetches: usize, fail_post: bool) -> (CountingProvider, Arc<AtomicUsize>, Arc<AtomicUsize>) {
    let fetches = Arc::new(AtomicUsize::new(0));
    let posts = Arc::new(AtomicUsize::new(0));
    (
        CountingProvider {
            fetches: fetches.clone(),
            posts: posts.clone(),
            fail_fetches,
            fail_post,
        },
        fetches,
        posts,
    )
}

fn acme() -> PrUrl {
    PrUrl::new(
        Platform::GitHub,
        "acme".to_string(),
        "widgets".to_string(),
        "42".to_string(),
    )
}

#[test]
fn provider_is_fetched_once_for_many_context_calls() {
    let (p, fetches, _) = provider(0, false);
    let mut tools = McpReviewToolSource::new(p, acme(), ResultSlot::new());
    for part in ["title", "diff", "files", "description", "title"] {
        tools.call_tool("get_pr_context", part_args(part)).unwrap();
    }
    assert_eq!(fetches.load(Ordering::SeqCst), 1);
    assert_eq!(
        tools.call_tool("get_pr_context", part_args("files")).unwrap().text,
        "src/a.rs, src/b.rs"
    );
}

#[test]
fn failed_fetch_is_recoverable_and_retried() {
    let (p, fetches, _) = provider(1, false);
    let mut tools = McpReviewToolSource::new(p, acme(), ResultSlot::new());
    match tools.call_tool("get_pr_context", part_args("title")) {
        Err(ToolSourceError::InvalidInput(m)) => assert_eq!(m, "MCP fetch failed: timeout"),
        other => panic!("unexpected {:?}", other),
    }
    let c = tools.call_tool("get_pr_context", part_args("title")).unwrap();
    assert_eq!(c.text, "Title here");
    assert_eq!(fetches.load(Ordering::SeqCst), 2);
}

#[test]
fn provider_submission_posts_then_stores() {
    let (p, _, posts) = provider(0, false);
    let mut tools = McpReviewToolSource::new(p, acme(), ResultSlot::new());
    let c = tools
        .call_tool("submit_review", summary_args("Looks good.", vec![]))
        .unwrap();
    assert_eq!(c.text, "Review submitted and posted via MCP.");
    assert_eq!(posts.load(Ordering::SeqCst), 1);
    assert_eq!(tools.result_slot().get().unwrap().summary, "Looks good.");
    assert_eq!(McpReviewToolSource::<CountingProvider>::tool_specs().len(), 2);
    assert_eq!(tools.list_tools().unwrap()[1].name, "submit_review");
}

#[test]
fn failed_post_leaves_slot_empty() {
    let (p, _, posts) = provider(0, true);
    let mut tools = McpReviewToolSource::new(p, acme(), ResultSlot::new());
    match tools.call_tool("submit_review", summary_args("x", vec![])) {
        Err(ToolSourceError::InvalidInput(m)) => assert_eq!(m, "MCP post_review failed: forbidden"),
        other => panic!("unexpected {:?}", other),
    }
    assert_eq!(posts.load(Ordering::SeqCst), 1);
    assert!(!tools.result_slot().is_filled());
    match tools.call_tool("nope", part_args("title")) {
        Err(ToolSourceError::NotFound(n)) => assert_eq!(n, "nope"),
        other => panic!("unexpected {:?}", other),
    }
}

#[test]
fn after_fetch_caches_success_and_reports_failure() {
    let (cache, answer) = after_fetch(Ok(sample_input()), "description");
    assert_eq!(cache.unwrap().title, "Title here");
    assert_eq!(answer.unwrap().text, "Desc");
    let (cache, answer) = after_fetch(
        Err(McpError {
            message: "down".to_string(),
        }),
        "title",
    );
    assert!(cache.is_none());
    match answer {
        Err(ToolSourceError::InvalidInput(m)) => assert_eq!(m, "MCP fetch failed: down"),
        other => panic!("unexpected {:?}", other),
    }
}

#[test]
fn after_post_offers_only_published_results() {
    let mut slot = ResultSlot::new();
    let failed = after_post(
        &mut slot,
        ReviewResult::new().with_summary("a"),
        Err(McpError {
            message: "nope".to_string(),
        }),
    );
    match failed {
        Err(ToolSourceError::InvalidInput(m)) => assert_eq!(m, "MCP post_review failed: nope"),
        other => panic!("unexpected {:?}", other),
    }
    assert!(!slot.is_filled());
    let ok = after_post(&mut slot, ReviewResult::new().with_summary("b"), Ok(())).unwrap();
    assert_eq!(ok.text, "Review submitted and posted via MCP.");
    assert_eq!(slot.get().unwrap().summary, "b");
}
