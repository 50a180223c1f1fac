//! The reasoning loop of one review: think, act, observe, until the
//! decision-maker stops calling tools or a result has been submitted.
//!
//! The decision-maker is an outside service, so the loop is a state machine:
//! its owner asks the decision-maker for the next step with the conversation
//! from [`ReasoningLoop::messages`], hands the reply to
//! [`ReasoningLoop::on_reply`] (or a transport failure to
//! [`ReasoningLoop::on_failure`]) and repeats while the step is
//! [`LoopStep::Think`]. [`ReasoningLoop::finish`] then gives the result or
//! the review's failure.

use vstd::prelude::*;

use crate::agent_reviewer::ReviewError;
use crate::mcp_provider::McpProvider;
use crate::pr_url::PrUrl;
use crate::review_agent::mcp_review_tools::McpReviewToolSource;
use crate::review_agent::prompts::{
    input_message, pr_message, pr_url_to_user_message, review_input_to_user_message,
    REVIEW_SYSTEM_PROMPT,
};
use crate::review_agent::review_tools::{
    slot_after_offer, submitted_result, tool_error_text, ResultSlot, ReviewToolSource,
    ReviewTools, ToolArguments, ToolCallContent, ToolSourceError, TOOL_SUBMIT_REVIEW,
};
use crate::review_input::ReviewInput;
use crate::review_result::{ReviewModel, ReviewResult};
use crate::text::{decimal, decimal_text, same_text};

verus! {

/// Who wrote a message of the conversation.
#[derive(Debug, Clone, Copy, PartialEq, Eq, Structural)]
pub enum Role {
    System,
    User,
    Assistant,
    Tool,
}

/// One message of the conversation; a tool's message names the call it
/// answers by the call's id, when the call had one.
#[derive(Debug, Clone)]
pub struct Message {
    pub role: Role,
    pub content: String,
    pub tool_call_id: Option<String>,
}

/// A tool call that the decision-maker proposes.
#[derive(Debug, Clone)]
pub struct ProposedCall {
    pub name: String,
    pub arguments: ToolArguments,
    pub id: Option<String>,
}

/// The decision-maker's answer to one round: its text, and the tool calls it
/// proposes, in order (none for a plain answer).
#[derive(Debug, Clone)]
pub struct DecisionReply {
    pub content: String,
    pub tool_calls: Vec<ProposedCall>,
}

/// What the loop's owner does next.
#[derive(Debug, Clone, Copy, PartialEq, Eq, Structural)]
pub enum LoopStep {
    /// Ask the decision-maker again with the updated conversation.
    Think,
    /// The loop has ended; read the outcome with `finish`.
    Done,
    /// The loop has ended on a fatal failure; `finish` reports it.
    Aborted,
}

/// Failure text of a review whose loop ended without a submission.
pub open spec fn non_compliance_text() -> Seq<char> {
    "review agent did not call submit_review"@
}

/// Failure text of a loop stopped by its round bound.
pub open spec fn round_bound_text(max_rounds: nat) -> Seq<char> {
    "review agent stopped after "@ + decimal(max_rounds) + " rounds without finishing"@
}

/// What a review reports: the fatal failure if the loop was aborted, else the
/// result in the slot, else non-compliance.
pub open spec fn review_outcome(failure: Option<Seq<char>>, slot: Option<ReviewModel>) -> Result<
    ReviewModel,
    Seq<char>,
> {
    match failure {
        Some(m) => Err(m),
        None => match slot {
            Some(v) => Ok(v),
            None => Err(non_compliance_text()),
        },
    }
}

/// A review that ends with nothing submitted fails with non-compliance and
/// never yields a result.
pub proof fn lemma_no_submission_no_result(failure: Option<Seq<char>>)
    ensures
        review_outcome(failure, None) is Err,
        failure is None ==> review_outcome(failure, None) == Err::<ReviewModel, Seq<char>>(
            non_compliance_text(),
        ),
{
}

/// A failure of the decision-maker ends the review with that failure,
/// whatever the slot holds.
pub proof fn lemma_failure_is_fatal(message: Seq<char>, slot: Option<ReviewModel>)
    ensures
        review_outcome(Some(message), slot) == Err::<ReviewModel, Seq<char>>(message),
{
}

/// The text a call's answer puts in the conversation.
pub open spec fn outcome_text(r: Result<ToolCallContent, ToolSourceError>) -> Seq<char> {
    match r {
        Ok(c) => c.text@,
        Err(e) => tool_error_text(e),
    }
}

/// A call whose answer accepted a submission.
pub open spec fn accepted(c: ProposedCall, r: Result<ToolCallContent, ToolSourceError>) -> bool {
    c.name@ == TOOL_SUBMIT_REVIEW@ && r is Ok
}

/// The result that a submission call hands in.
pub open spec fn call_result(c: ProposedCall) -> ReviewModel {
    submitted_result(c.arguments.summary->0@, c.arguments.line_comments@)
}

/// Whether any of `calls` was accepted as a submission, by its answer in `rs`.
pub open spec fn any_accepted(
    calls: Seq<ProposedCall>,
    rs: Seq<Result<ToolCallContent, ToolSourceError>>,
) -> bool
    decreases calls.len(),
{
    if calls.len() == 0 || rs.len() == 0 {
        false
    } else {
        any_accepted(calls.drop_last(), rs.drop_last()) || accepted(calls.last(), rs.last())
    }
}

/// Whether call `j` is the first accepted submission.
pub open spec fn first_accepted(
    calls: Seq<ProposedCall>,
    rs: Seq<Result<ToolCallContent, ToolSourceError>>,
    j: int,
) -> bool {
    &&& accepted(calls[j], rs[j])
    &&& forall|i: int| 0 <= i < j ==> !accepted(#[trigger] calls[i], rs[i])
}

/// The slot after `calls`, answered by `rs`, ran from `slot`: each accepted
/// submission is offered in turn.
pub open spec fn slot_after_calls(
    slot: Option<ReviewModel>,
    calls: Seq<ProposedCall>,
    rs: Seq<Result<ToolCallContent, ToolSourceError>>,
) -> Option<ReviewModel>
    decreases calls.len(),
{
    if calls.len() == 0 || rs.len() == 0 {
        slot
    } else {
        let s = slot_after_calls(slot, calls.drop_last(), rs.drop_last());
        if accepted(calls.last(), rs.last()) {
            slot_after_offer(s, call_result(calls.last()))
        } else {
            s
        }
    }
}

/// A round ends the loop when it proposes no call or accepts a submission.
pub open spec fn round_ends(
    calls: Seq<ProposedCall>,
    rs: Seq<Result<ToolCallContent, ToolSourceError>>,
) -> bool {
    calls.len() == 0 || any_accepted(calls, rs)
}

/// Calls that accept no submission leave the slot as it was.
pub proof fn lemma_quiet_calls(
    slot: Option<ReviewModel>,
    calls: Seq<ProposedCall>,
    rs: Seq<Result<ToolCallContent, ToolSourceError>>,
)
    requires
        calls.len() == rs.len(),
        forall|i: int| 0 <= i < calls.len() ==> !accepted(#[trigger] calls[i], rs[i]),
    ensures
        slot_after_calls(slot, calls, rs) == slot,
        !any_accepted(calls, rs),
    decreases calls.len(),
{
    if calls.len() > 0 {
        let (c, r) = (calls.drop_last(), rs.drop_last());
        assert forall|i: int| 0 <= i < c.len() implies !accepted(#[trigger] c[i], r[i]) by {
            assert(c[i] == calls[i] && r[i] == rs[i]);
        }
        lemma_quiet_calls(slot, c, r);
        assert(!accepted(calls[calls.len() - 1], rs[rs.len() - 1]));
    }
}

/// Within a round, the first accepted submission is what the slot holds
/// when the round began with it empty; later ones leave it unchanged.
pub proof fn lemma_first_accepted_kept(
    calls: Seq<ProposedCall>,
    rs: Seq<Result<ToolCallContent, ToolSourceError>>,
    j: int,
)
    requires
        calls.len() == rs.len(),
        0 <= j < calls.len(),
        first_accepted(calls, rs, j),
    ensures
        slot_after_calls(None, calls, rs) == Some(call_result(calls[j])),
        any_accepted(calls, rs),
    decreases calls.len(),
{
    let (c, r) = (calls.drop_last(), rs.drop_last());
    if j == calls.len() - 1 {
        assert forall|i: int| 0 <= i < c.len() implies !accepted(#[trigger] c[i], r[i]) by {
            assert(c[i] == calls[i] && r[i] == rs[i]);
        }
        lemma_quiet_calls(None, c, r);
    } else {
        assert(c[j] == calls[j] && r[j] == rs[j]);
        assert forall|i: int| 0 <= i < j implies !accepted(#[trigger] c[i], r[i]) by {
            assert(c[i] == calls[i] && r[i] == rs[i]);
        }
        lemma_first_accepted_kept(c, r, j);
    }
}

/// The loop's state: the tools with their slot, the conversation, and how
/// many rounds have run.
pub struct ReasoningLoop<T: ReviewTools> {
    tools: T,
    messages: Vec<Message>,
    rounds: usize,
    max_rounds: usize,
    finished: bool,
    failure: Option<String>,
    states: Ghost<Seq<T>>,
    results: Ghost<Seq<Result<ToolCallContent, ToolSourceError>>>,
}

impl<T: ReviewTools> ReasoningLoop<T> {
    pub closed spec fn wf(&self) -> bool {
        &&& self.tools.ready()
        &&& self.rounds <= self.max_rounds
        &&& self.failure is Some ==> self.finished
        &&& !self.finished ==> self.rounds < self.max_rounds
    }

    /// The result slot as it stands.
    pub closed spec fn slot(&self) -> Option<ReviewModel> {
        self.tools.filled()
    }

    /// Whether the loop still waits for a reply.
    pub closed spec fn is_thinking(&self) -> bool {
        !self.finished
    }

    /// The fatal failure that ended the loop, if any.
    pub closed spec fn failure(&self) -> Option<Seq<char>> {
        match self.failure {
            Some(m) => Some(m@),
            None => None,
        }
    }

    /// The conversation so far.
    pub closed spec fn conversation(&self) -> Seq<Message> {
        self.messages@
    }

    /// Rounds run so far.
    pub closed spec fn round_count(&self) -> nat {
        self.rounds as nat
    }

    /// Bound on the number of rounds.
    pub closed spec fn round_bound(&self) -> nat {
        self.max_rounds as nat
    }

    /// The tools the loop runs calls on.
    pub closed spec fn tool_source(&self) -> T {
        self.tools
    }

    /// The states of the tools through the last round: before its first
    /// call, then after each call.
    pub closed spec fn round_states(&self) -> Seq<T> {
        self.states@
    }

    /// What each call of the last round answered, in order.
    pub closed spec fn round_results(&self) -> Seq<Result<ToolCallContent, ToolSourceError>> {
        self.results@
    }

    /// Starts a review over `tools`: the conversation holds the system prompt
    /// and `user_message`. The loop stops, aborted, after `max_rounds` rounds
    /// without an end.
    pub fn start(tools: T, user_message: String, max_rounds: usize) -> (r: Self)
        requires
            tools.ready(),
            max_rounds > 0,
        ensures
            r.wf(),
            r.is_thinking(),
            r.slot() == tools.filled(),
            r.tool_source() == tools,
            r.failure() is None,
            r.round_count() == 0,
            r.round_bound() == max_rounds,
            r.conversation().len() == 2,
            r.conversation()[0].role == Role::System,
            r.conversation()[0].content@ == REVIEW_SYSTEM_PROMPT@,
            r.conversation()[1].role == Role::User,
            r.conversation()[1].content@ == user_message@,
    {
        let mut messages: Vec<Message> = Vec::new();
        messages.push(
            Message {
                role: Role::System,
                content: REVIEW_SYSTEM_PROMPT.to_owned(),
                tool_call_id: None,
            },
        );
        messages.push(Message { role: Role::User, content: user_message, tool_call_id: None });
        ReasoningLoop {
            tools,
            messages,
            rounds: 0,
            max_rounds,
            finished: false,
            failure: None,
            states: Ghost(Seq::empty()),
            results: Ghost(Seq::empty()),
        }
    }

    /// The conversation to hand to the decision-maker.
    pub fn messages(&self) -> (r: &Vec<Message>)
        ensures
            r@ == self.conversation(),
    {
        &self.messages
    }

    /// Whether the loop still waits for a reply.
    pub fn thinking(&self) -> (r: bool)
        ensures
            r == self.is_thinking(),
    {
        !self.finished
    }

    /// One round: runs the proposed calls in order on the tools, appends the
    /// reply and each call's answer (its text, or its failure text) to the
    /// conversation, and decides.
    ///
    /// The loop ends when the reply proposes no call, or when a submission of
    /// this round was accepted. A failed call does not end it: its failure
    /// text goes to the decision-maker, which may call again. After
    /// `max_rounds` rounds without an end the loop is aborted.
    pub fn on_reply(&mut self, reply: DecisionReply) -> (step: LoopStep)
        requires
            old(self).wf(),
            old(self).is_thinking(),
        ensures
            final(self).wf(),
            final(self).round_count() == old(self).round_count() + 1,
            final(self).round_bound() == old(self).round_bound(),
            final(self).round_states().len() == reply.tool_calls@.len() + 1,
            final(self).round_results().len() == reply.tool_calls@.len(),
            final(self).round_states()[0] == old(self).tool_source(),
            final(self).round_states()[reply.tool_calls@.len() as int] == final(self).tool_source(),
            forall|i: int|
                0 <= i < reply.tool_calls@.len() ==> final(self).round_states()[i].tool_step(
                    reply.tool_calls@[i].name@,
                    reply.tool_calls@[i].arguments,
                    #[trigger] final(self).round_results()[i],
                    final(self).round_states()[i + 1],
                ),
            final(self).conversation().len() == old(self).conversation().len() + 1
                + reply.tool_calls@.len(),
            final(self).conversation().subrange(0, old(self).conversation().len() as int) == old(
                self,
            ).conversation(),
            final(self).conversation()[old(self).conversation().len() as int].role
                == Role::Assistant,
            final(self).conversation()[old(self).conversation().len() as int].content@
                == reply.content@,
            forall|i: int|
                0 <= i < reply.tool_calls@.len() ==> {
                    let m = #[trigger] final(self).conversation()[old(self).conversation().len()
                        + 1 + i];
                    &&& m.role == Role::Tool
                    &&& m.tool_call_id == reply.tool_calls@[i].id
                    &&& m.content@ == outcome_text(final(self).round_results()[i])
                },
            final(self).slot() == slot_after_calls(
                old(self).slot(),
                reply.tool_calls@,
                final(self).round_results(),
            ),
            forall|j: int|
                0 <= j < reply.tool_calls@.len() && old(self).slot() is None && first_accepted(
                    reply.tool_calls@,
                    final(self).round_results(),
                    j,
                ) ==> final(self).slot() == Some(#[trigger] call_result(reply.tool_calls@[j])),
            round_ends(reply.tool_calls@, final(self).round_results()) ==> step == LoopStep::Done,
            !round_ends(reply.tool_calls@, final(self).round_results()) && final(self).round_count()
                < final(self).round_bound() ==> step == LoopStep::Think,
            !round_ends(reply.tool_calls@, final(self).round_results()) && final(self).round_count()
                == final(self).round_bound() ==> step == LoopStep::Aborted,
            step == LoopStep::Think <==> final(self).is_thinking(),
            step == LoopStep::Aborted <==> final(self).failure() is Some,
            step == LoopStep::Aborted ==> final(self).failure() == Some(
                round_bound_text(old(self).round_bound()),
            ),
    {
        let ghost start_tools = self.tools;
        let ghost start_slot = self.tools.filled();
        let ghost before = self.messages@;
        let ghost n0 = self.messages@.len();
        let ghost calls0 = reply.tool_calls@;
        let ghost reply_content = reply.content@;
        let ghost mut states: Seq<T> = seq![self.tools];
        let ghost mut results: Seq<Result<ToolCallContent, ToolSourceError>> = Seq::empty();
        let DecisionReply { content, tool_calls } = reply;
        self.messages.push(Message { role: Role::Assistant, content, tool_call_id: None });
        let no_calls = tool_calls.len() == 0;
        let mut calls = tool_calls;
        let mut submitted = false;
        let ghost mut k: int = 0;
        while calls.len() > 0
            invariant
                0 <= k <= calls0.len(),
                calls@ == calls0.subrange(k, calls0.len() as int),
                self.tools.ready(),
                self.rounds == old(self).rounds,
                self.max_rounds == old(self).max_rounds,
                self.finished == old(self).finished,
                self.failure == old(self).failure,
                self.rounds < self.max_rounds,
                states.len() == k + 1,
                results.len() == k,
                states[0] == start_tools,
                states[k] == self.tools,
                forall|i: int|
                    0 <= i < k ==> states[i].tool_step(
                        calls0[i].name@,
                        calls0[i].arguments,
                        #[trigger] results[i],
                        states[i + 1],
                    ),
                self.messages@.len() == old(self).messages@.len() + 1 + k,
                before == old(self).messages@,
                n0 == before.len(),
                self.messages@.subrange(0, n0 as int) == before,
                self.messages@[n0 as int].role == Role::Assistant,
                self.messages@[n0 as int].content@ == reply_content,
                forall|j: int|
                    0 <= j < k ==> {
                        let m = #[trigger] self.messages@[n0 + 1 + j];
                        &&& m.role == Role::Tool
                        &&& m.tool_call_id == calls0[j].id
                        &&& m.content@ == outcome_text(results[j])
                    },
                self.tools.filled() == slot_after_calls(
                    start_slot,
                    calls0.subrange(0, k),
                    results,
                ),
                submitted == any_accepted(calls0.subrange(0, k), results),
            decreases calls@.len(),
        {
            let call = calls.remove(0);
            assert(call == calls0[k]);
            let is_submit = same_text(call.name.as_str(), TOOL_SUBMIT_REVIEW);
            let ProposedCall { name, arguments, id } = call;
            let result = self.tools.run_tool(name.as_str(), arguments);
            proof {
                let prefix = calls0.subrange(0, k + 1);
                assert(prefix.drop_last() =~= calls0.subrange(0, k));
                assert(results.push(result).drop_last() =~= results);
                results = results.push(result);
                states = states.push(self.tools);
            }
            let text = match result {
                Ok(c) => {
                    if is_submit {
                        submitted = true;
                    }
                    c.text
                },
                Err(e) => e.describe(),
            };
            self.messages.push(Message { role: Role::Tool, content: text, tool_call_id: id });
            proof {
                k = k + 1;
                assert(calls0.subrange(k, calls0.len() as int) =~= calls@);
            }
        }
        proof {
            assert(calls0.subrange(0, k) =~= calls0);
            self.states@ = states;
            self.results@ = results;
            assert forall|j: int|
                0 <= j < calls0.len() && start_slot is None && first_accepted(calls0, results, j)
                    implies self.tools.filled() == Some(#[trigger] call_result(calls0[j])) by {
                lemma_first_accepted_kept(calls0, results, j);
            }
        }
        self.rounds = self.rounds + 1;
        if no_calls || submitted {
            self.finished = true;
            LoopStep::Done
        } else if self.rounds >= self.max_rounds {
            self.finished = true;
            self.failure = Some(round_bound_failure(self.max_rounds));
            LoopStep::Aborted
        } else {
            LoopStep::Think
        }
    }

    /// The decision-maker could not be reached or answered out of protocol:
    /// the loop is aborted with `message`, whatever was submitted before.
    pub fn on_failure(&mut self, message: String) -> (step: LoopStep)
        requires
            old(self).wf(),
            old(self).is_thinking(),
        ensures
            final(self).wf(),
            step == LoopStep::Aborted,
            !final(self).is_thinking(),
            final(self).failure() == Some(message@),
            final(self).slot() == old(self).slot(),
            final(self).conversation() == old(self).conversation(),
    {
        self.finished = true;
        self.failure = Some(message);
        LoopStep::Aborted
    }

    /// Ends the review: the fatal failure if the loop was aborted, else the
    /// submitted result, else non-compliance.
    pub fn finish(self) -> (r: Result<ReviewResult, ReviewError>)
        requires
            self.wf(),
        ensures
            match r {
                Ok(v) => review_outcome(self.failure(), self.slot()) == Ok::<
                    ReviewModel,
                    Seq<char>,
                >(v@),
                Err(e) => review_outcome(self.failure(), self.slot()) == Err::<
                    ReviewModel,
                    Seq<char>,
                >(e.message@),
            },
    {
        let ReasoningLoop { tools, failure, .. } = self;
        match failure {
            Some(message) => Err(ReviewError { message }),
            None => finish_review(tools.release_slot()),
        }
    }
}

impl<M: McpProvider> ReasoningLoop<McpReviewToolSource<M>> {
    /// Starts the review of `pr` through a live provider, with an empty slot;
    /// the user message names the request, whose content the decision-maker
    /// fetches through `get_pr_context`.
    pub fn for_request(mcp: M, pr: PrUrl, max_rounds: usize) -> (r: Self)
        requires
            max_rounds > 0,
        ensures
            r.wf(),
            r.is_thinking(),
            r.slot() is None,
            r.failure() is None,
            r.tool_source().request() == pr@,
            r.tool_source().fetch_count() == 0,
            r.round_count() == 0,
            r.round_bound() == max_rounds,
            r.conversation().len() == 2,
            r.conversation()[0].role == Role::System,
            r.conversation()[0].content@ == REVIEW_SYSTEM_PROMPT@,
            r.conversation()[1].role == Role::User,
            r.conversation()[1].content@ == pr_message(pr@),
    {
        let user_text = pr_url_to_user_message(&pr);
        let tools = McpReviewToolSource::new(mcp, pr, ResultSlot::new());
        ReasoningLoop::start(tools, user_text, max_rounds)
    }
}

impl ReasoningLoop<ReviewToolSource> {
    /// Starts the review of content already in hand, with an empty slot; the
    /// user message renders the whole input.
    pub fn for_input(input: ReviewInput, max_rounds: usize) -> (r: Self)
        requires
            max_rounds > 0,
        ensures
            r.wf(),
            r.is_thinking(),
            r.slot() is None,
            r.failure() is None,
            r.tool_source().input() == input,
            r.round_count() == 0,
            r.round_bound() == max_rounds,
            r.conversation().len() == 2,
            r.conversation()[0].role == Role::System,
            r.conversation()[0].content@ == REVIEW_SYSTEM_PROMPT@,
            r.conversation()[1].role == Role::User,
            r.conversation()[1].content@ == input_message(input),
    {
        let user_text = review_input_to_user_message(&input);
        let tools = ReviewToolSource::new(input, ResultSlot::new());
        ReasoningLoop::start(tools, user_text, max_rounds)
    }
}

/// The failure of a loop that ran out of rounds.
fn round_bound_failure(max_rounds: usize) -> (r: String)
    ensures
        r@ == round_bound_text(max_rounds as nat),
{
    let mut s = String::new();
    s.append("review agent stopped after ");
    let n = decimal_text(max_rounds);
    s.append(n.as_str());
    s.append(" rounds without finishing");
    s
}

/// Reads the slot once the loop has halted: the result, or non-compliance
/// when nothing was submitted.
pub fn finish_review(slot: ResultSlot) -> (r: Result<ReviewResult, ReviewError>)
    ensures
        match r {
            Ok(v) => slot@ == Some(v@),
            Err(e) => slot@ is None && e.message@ == non_compliance_text(),
        },
{
    match slot.into_result() {
        Some(v) => Ok(v),
        None => Err(ReviewError { message: "review agent did not call submit_review".to_owned() }),
    }
}

} // verus!
