//! Provider-backed review tools: `get_pr_context` fetches the request's
//! content once and caches it; `submit_review` publishes the result through
//! the provider before offering it to the slot.

use vstd::prelude::*;

use crate::mcp_provider::{McpError, McpProvider};
use crate::pr_url::{PrUrl, PrUrlModel};
use crate::review_input::ReviewInput;
use crate::review_agent::review_tools::{
    build_review_result, context_part, get_part, is_catalog, lemma_tool_names_differ,
    requested_part, slot_after_offer, submitted_result, tool_catalog, ResultSlot, ReviewTools,
    ToolArguments, ToolCallContent, ToolSourceError, ToolSpec, TOOL_GET_PR_CONTEXT,
    TOOL_SUBMIT_REVIEW,
};
use crate::review_result::{ReviewModel, ReviewResult};
use crate::text::same_text;

verus! {

/// Text of the failure of a fetch that failed with `e`.
pub open spec fn fetch_failure_text(e: McpError) -> Seq<char> {
    "MCP fetch failed: "@ + e.message@
}

/// Text of the failure of a publication that failed with `e`.
pub open spec fn post_failure_text(e: McpError) -> Seq<char> {
    "MCP post_review failed: "@ + e.message@
}

/// The tool failure for a provider fetch that failed with `e`.
pub fn fetch_failure(e: &McpError) -> (r: ToolSourceError)
    ensures
        r matches ToolSourceError::InvalidInput(m) && m@ == fetch_failure_text(*e),
{
    let mut m = String::new();
    m.append("MCP fetch failed: ");
    m.append(e.message.as_str());
    ToolSourceError::InvalidInput(m)
}

/// The tool failure for a publication that failed with `e`.
pub fn post_failure(e: &McpError) -> (r: ToolSourceError)
    ensures
        r matches ToolSourceError::InvalidInput(m) && m@ == post_failure_text(*e),
{
    let mut m = String::new();
    m.append("MCP post_review failed: ");
    m.append(e.message.as_str());
    ToolSourceError::InvalidInput(m)
}


/// Acknowledgement of a submission that was published.
pub open spec fn posted_ack_text() -> Seq<char> {
    "Review submitted and posted via MCP."@
}

/// What a fetch answered, once the tools have taken the answer: the content
/// to cache and the answer to `get_pr_context` for `part`.
pub fn after_fetch(fetched: Result<ReviewInput, McpError>, part: &str) -> (r: (
    Option<ReviewInput>,
    Result<ToolCallContent, ToolSourceError>,
))
    ensures
        match fetched {
            Ok(b) => r.0 == Some(b) && (r.1 matches Ok(c) && c.text@ == context_part(b, part@)),
            Err(e) => r.0 is None && (r.1 matches Err(ToolSourceError::InvalidInput(m)) && m@
                == fetch_failure_text(e)),
        },
{
    match fetched {
        Ok(input) => {
            let text = get_part(&input, part);
            (Some(input), Ok(ToolCallContent { text }))
        },
        Err(e) => (None, Err(fetch_failure(&e))),
    }
}

/// What a publication of `result` answered, once the tools have taken the
/// answer: a published result is offered to the slot and acknowledged; a
/// failed publication leaves the slot as it was.
pub fn after_post(slot: &mut ResultSlot, result: ReviewResult, posted: Result<(), McpError>) -> (r:
    Result<ToolCallContent, ToolSourceError>)
    ensures
        match posted {
            Ok(()) => (r matches Ok(c) && c.text@ == posted_ack_text()) && final(slot)@
                == slot_after_offer(old(slot)@, result@),
            Err(e) => (r matches Err(ToolSourceError::InvalidInput(m)) && m@ == post_failure_text(
                e,
            )) && final(slot)@ == old(slot)@,
        },
{
    match posted {
        Ok(()) => {
            slot.offer(result);
            Ok(ToolCallContent { text: "Review submitted and posted via MCP.".to_owned() })
        },
        Err(e) => Err(post_failure(&e)),
    }
}

/// How many answers of a fetch log are successes.
pub open spec fn successful_fetches(log: Seq<Result<ReviewInput, McpError>>) -> nat
    decreases log.len(),
{
    if log.len() == 0 {
        0
    } else {
        successful_fetches(log.drop_last()) + if log.last() is Ok {
            1nat
        } else {
            0nat
        }
    }
}

/// Tools backed by a live provider.
///
/// The first `get_pr_context` fetches the request's content and caches it;
/// later calls read the cache. A failed fetch leaves the cache empty, so the
/// next call fetches again. `submit_review` publishes the result and, once
/// published, offers it to the slot. Every answer of the provider is kept in
/// a ghost log.
pub struct McpReviewToolSource<M: McpProvider> {
    mcp: M,
    pr: PrUrl,
    result_slot: ResultSlot,
    cached: Option<ReviewInput>,
    fetch_log: Ghost<Seq<Result<ReviewInput, McpError>>>,
    post_log: Ghost<Seq<(ReviewModel, Result<(), McpError>)>>,
}

impl<M: McpProvider> McpReviewToolSource<M> {
    /// The request these tools serve.
    pub closed spec fn request(&self) -> PrUrlModel {
        self.pr@
    }

    /// The slot that submissions write to.
    pub closed spec fn slot(&self) -> ResultSlot {
        self.result_slot
    }

    /// The cached content, once a fetch has succeeded.
    pub closed spec fn cache(&self) -> Option<ReviewInput> {
        self.cached
    }

    /// The provider's answers to every fetch of this request, in order.
    pub closed spec fn fetches(&self) -> Seq<Result<ReviewInput, McpError>> {
        self.fetch_log@
    }

    /// Every result handed to the provider's `post_review` for this request,
    /// with the provider's answer, in order.
    pub closed spec fn posts(&self) -> Seq<(ReviewModel, Result<(), McpError>)> {
        self.post_log@
    }

    /// How many times the provider's fetch has been called.
    pub open spec fn fetch_count(&self) -> nat {
        self.fetches().len()
    }

    /// How many of those fetches failed.
    pub open spec fn failed_fetch_count(&self) -> nat {
        (self.fetches().len() - successful_fetches(self.fetches())) as nat
    }

    /// The cache holds the one successful fetch, the last one made; before
    /// it, every fetch failed.
    pub open spec fn wf(&self) -> bool {
        &&& successful_fetches(self.fetches()) <= self.fetches().len()
        &&& match self.cache() {
            None => successful_fetches(self.fetches()) == 0,
            Some(b) => successful_fetches(self.fetches()) == 1 && self.fetches().len() > 0
                && self.fetches().last() == Ok::<ReviewInput, McpError>(b),
        }
    }

    /// Creates the tools for request `pr`. Nothing is fetched until the first
    /// `get_pr_context`.
    pub fn new(mcp: M, pr: PrUrl, result_slot: ResultSlot) -> (r: Self)
        ensures
            r.wf(),
            r.request() == pr@,
            r.slot()@ == result_slot@,
            r.cache() is None,
            r.fetches().len() == 0,
            r.posts().len() == 0,
    {
        McpReviewToolSource {
            mcp,
            pr,
            result_slot,
            cached: None,
            fetch_log: Ghost(Seq::empty()),
            post_log: Ghost(Seq::empty()),
        }
    }

    /// The same tools as the in-memory source: `get_pr_context`, then `submit_review`.
    pub fn tool_specs() -> (r: Vec<ToolSpec>)
        ensures
            is_catalog(r@),
    {
        tool_catalog()
    }

    /// Lists the tools; this never fails and asks nothing of the provider.
    pub fn list_tools(&self) -> (r: Result<Vec<ToolSpec>, ToolSourceError>)
        ensures
            r matches Ok(specs) && is_catalog(specs@),
    {
        Ok(tool_catalog())
    }

    /// The slot that submissions write to.
    pub fn result_slot(&self) -> (r: &ResultSlot)
        ensures
            r@ == self.slot()@,
    {
        &self.result_slot
    }

    /// Gives up the tools and keeps the slot.
    pub fn into_result_slot(self) -> (r: ResultSlot)
        ensures
            r@ == self.slot()@,
    {
        self.result_slot
    }

    /// Answers `get_pr_context`, fetching first when nothing is cached.
    fn context(&mut self, part: &str) -> (r: Result<ToolCallContent, ToolSourceError>)
        requires
            old(self).wf(),
        ensures
            final(self).wf(),
            final(self).request() == old(self).request(),
            final(self).slot()@ == old(self).slot()@,
            final(self).posts() == old(self).posts(),
            context_step(*old(self), part@, r, *final(self)),
    {
        if let Some(input) = &self.cached {
            return Ok(ToolCallContent { text: get_part(input, part) });
        }
        let fetched = self.mcp.fetch(&self.pr);
        proof {
            self.fetch_log@ = self.fetch_log@.push(fetched);
            assert(self.fetch_log@.drop_last() =~= old(self).fetch_log@);
        }
        let (cache, answer) = after_fetch(fetched, part);
        self.cached = cache;
        answer
    }

    /// Runs the tool `name` with `arguments`; see [`provider_step`].
    pub fn call_tool(&mut self, name: &str, arguments: ToolArguments) -> (r: Result<
        ToolCallContent,
        ToolSourceError,
    >)
        requires
            old(self).wf(),
        ensures
            final(self).wf(),
            provider_step(*old(self), name@, arguments, r, *final(self)),
    {
        proof {
            lemma_tool_names_differ();
        }
        if same_text(name, TOOL_GET_PR_CONTEXT) {
            match &arguments.part {
                Some(p) => self.context(p.as_str()),
                None => {
                    proof {
                        reveal_strlit("");
                    }
                    assert(""@ =~= Seq::<char>::empty());
                    self.context("")
                },
            }
        } else if same_text(name, TOOL_SUBMIT_REVIEW) {
            match arguments.summary {
                None => Err(ToolSourceError::InvalidInput("submit_review: missing summary".to_owned())),
                Some(summary) => {
                    let result = build_review_result(summary, &arguments.line_comments);
                    let posted = self.mcp.post_review(&self.pr, &result);
                    proof {
                        self.post_log@ = self.post_log@.push((result@, posted));
                        assert(self.post_log@.drop_last() =~= old(self).post_log@);
                    }
                    after_post(&mut self.result_slot, result, posted)
                },
            }
        } else {
            Err(ToolSourceError::NotFound(name.to_owned()))
        }
    }
}

/// What `get_pr_context` for `part` does from `old` to `new`, answering `r`.
///
/// With content cached, it answers from the cache and fetches nothing.
/// Otherwise it fetches once: a successful answer is cached and answers the
/// call; a failed one fails the call and leaves the cache empty.
pub open spec fn context_step<M: McpProvider>(
    old: McpReviewToolSource<M>,
    part: Seq<char>,
    r: Result<ToolCallContent, ToolSourceError>,
    new: McpReviewToolSource<M>,
) -> bool {
    match old.cache() {
        Some(b) => {
            &&& new.cache() == old.cache()
            &&& new.fetches() == old.fetches()
            &&& r matches Ok(c) && c.text@ == context_part(b, part)
        },
        None => {
            &&& new.fetches().len() == old.fetches().len() + 1
            &&& new.fetches().drop_last() == old.fetches()
            &&& match new.fetches().last() {
                Ok(b) => new.cache() == Some(b) && (r matches Ok(c) && c.text@ == context_part(
                    b,
                    part,
                )),
                Err(e) => new.cache() is None && (r matches Err(ToolSourceError::InvalidInput(m))
                    && m@ == fetch_failure_text(e)),
            }
        },
    }
}

/// What one call of `name` with `arguments` on the provider-backed tools
/// does, from `old` to `new`, answering `r`.
///
/// `get_pr_context` goes by [`context_step`] and touches neither the slot
/// nor the publications. `submit_review` without a summary fails before any
/// publication; with one, it hands its result to `post_review` once, and
/// offers it to the slot only when the provider accepted it. Any other name
/// is not found and does nothing.
pub open spec fn provider_step<M: McpProvider>(
    old: McpReviewToolSource<M>,
    name: Seq<char>,
    arguments: ToolArguments,
    r: Result<ToolCallContent, ToolSourceError>,
    new: McpReviewToolSource<M>,
) -> bool {
    &&& new.request() == old.request()
    &&& name != TOOL_GET_PR_CONTEXT@ ==> new.cache() == old.cache() && new.fetches()
        == old.fetches()
    &&& !(name == TOOL_SUBMIT_REVIEW@ && arguments.summary is Some) ==> new.posts()
        == old.posts()
    &&& name == TOOL_GET_PR_CONTEXT@ ==> {
        &&& new.slot()@ == old.slot()@
        &&& context_step(old, requested_part(arguments), r, new)
    }
    &&& name == TOOL_SUBMIT_REVIEW@ && arguments.summary is None ==> {
        &&& r matches Err(ToolSourceError::InvalidInput(m)) && m@
            == "submit_review: missing summary"@
        &&& new.slot()@ == old.slot()@
    }
    &&& name == TOOL_SUBMIT_REVIEW@ && arguments.summary is Some ==> {
        let v = submitted_result(arguments.summary->0@, arguments.line_comments@);
        &&& new.posts().len() == old.posts().len() + 1
        &&& new.posts().drop_last() == old.posts()
        &&& new.posts().last().0 == v
        &&& match new.posts().last().1 {
            Ok(()) => (r matches Ok(c) && c.text@ == posted_ack_text()) && new.slot()@
                == slot_after_offer(old.slot()@, v),
            Err(e) => (r matches Err(ToolSourceError::InvalidInput(m)) && m@
                == post_failure_text(e)) && new.slot()@ == old.slot()@,
        }
    }
    &&& name != TOOL_GET_PR_CONTEXT@ && name != TOOL_SUBMIT_REVIEW@ ==> {
        &&& r matches Err(ToolSourceError::NotFound(n)) && n@ == name
        &&& new.slot()@ == old.slot()@
    }
}

impl<M: McpProvider> ReviewTools for McpReviewToolSource<M> {
    open spec fn filled(&self) -> Option<ReviewModel> {
        self.slot()@
    }

    open spec fn ready(&self) -> bool {
        self.wf()
    }

    open spec fn tool_step(
        &self,
        name: Seq<char>,
        arguments: ToolArguments,
        r: Result<ToolCallContent, ToolSourceError>,
        after: Self,
    ) -> bool {
        provider_step(*self, name, arguments, r, after)
    }

    fn run_tool(&mut self, name: &str, arguments: ToolArguments) -> (r: Result<
        ToolCallContent,
        ToolSourceError,
    >) {
        self.call_tool(name, arguments)
    }

    fn release_slot(self) -> (r: ResultSlot) {
        self.into_result_slot()
    }
}

/// At most one fetch succeeds per review: every fetch but the one that
/// filled the cache has failed, so while fetches succeed, any number of
/// `get_pr_context` calls make at most one.
pub proof fn lemma_fetch_at_most_once<M: McpProvider>(tools: &McpReviewToolSource<M>)
    requires
        tools.wf(),
    ensures
        successful_fetches(tools.fetches()) <= 1,
        tools.fetch_count() <= tools.failed_fetch_count() + 1,
        tools.cache() is None ==> tools.fetch_count() == tools.failed_fetch_count(),
{
}

} // verus!
