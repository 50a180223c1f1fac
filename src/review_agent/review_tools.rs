//! The review tools: `get_pr_context` reads a part of the request and
//! `submit_review` hands in the result, which goes to a single-assignment
//! [`ResultSlot`].

use vstd::prelude::*;

use crate::review_input::ReviewInput;
use crate::review_result::{comments_view, LineComment, LineCommentModel, ReviewModel, ReviewResult};
use crate::text::{joined, same_text};

verus! {

/// Tool name for retrieving a part of the PR context.
pub const TOOL_GET_PR_CONTEXT: &'static str = "get_pr_context";

/// Tool name for submitting the final review result.
pub const TOOL_SUBMIT_REVIEW: &'static str = "submit_review";

/// JSON schema of the arguments of `get_pr_context`.
pub const GET_PR_CONTEXT_SCHEMA: &'static str = "{\"type\":\"object\",\"properties\":{\"part\":{\"type\":\"string\",\"enum\":[\"title\",\"description\",\"diff\",\"files\"],\"description\":\"Which part of the PR to retrieve.\"}},\"required\":[\"part\"]}";

/// JSON schema of the arguments of `submit_review`.
pub const SUBMIT_REVIEW_SCHEMA: &'static str = "{\"type\":\"object\",\"properties\":{\"summary\":{\"type\":\"string\",\"description\":\"Overall review summary.\"},\"line_comments\":{\"type\":\"array\",\"items\":{\"type\":\"object\",\"properties\":{\"path\":{\"type\":\"string\"},\"line\":{\"type\":\"integer\",\"minimum\":1},\"body\":{\"type\":\"string\"}},\"required\":[\"path\",\"line\",\"body\"]},\"description\":\"Optional per-line comments.\"}},\"required\":[\"summary\"]}";

/// Description of `get_pr_context` shown to the decision-maker.
pub const GET_PR_CONTEXT_DESCRIPTION: &'static str = "Retrieve a part of the PR: title, description, diff, or files.";

/// Description of `submit_review` shown to the decision-maker.
pub const SUBMIT_REVIEW_DESCRIPTION: &'static str = "Submit the final code review. Call exactly once when done. Required: summary; optional: line_comments.";

/// The two tool names differ.
pub(crate) proof fn lemma_tool_names_differ()
    ensures
        TOOL_GET_PR_CONTEXT@ != TOOL_SUBMIT_REVIEW@,
{
    reveal_strlit("get_pr_context");
    reveal_strlit("submit_review");
    assert(TOOL_GET_PR_CONTEXT@[0] != TOOL_SUBMIT_REVIEW@[0]);
}

/// Declaration of one callable tool: its name, what it does, and the JSON
/// schema of its arguments.
#[derive(Debug, Clone)]
pub struct ToolSpec {
    pub name: String,
    pub description: Option<String>,
    pub input_schema: String,
}

/// Text that a successful tool call hands back.
#[derive(Debug, Clone)]
pub struct ToolCallContent {
    pub text: String,
}

/// Why a tool call failed. Both kinds go back to the decision-maker, which
/// may call again with corrected arguments.
#[derive(Debug, Clone)]
pub enum ToolSourceError {
    /// No tool of that name is declared.
    NotFound(String),
    /// The arguments were not usable, or a provider behind the tool failed.
    InvalidInput(String),
}

/// Arguments of one tool call, read out of its structured payload. Fields
/// that the payload lacks, or holds with the wrong shape, are `None`;
/// `line_comments` is empty when absent or malformed.
#[derive(Debug, Clone)]
pub struct ToolArguments {
    pub part: Option<String>,
    pub summary: Option<String>,
    pub line_comments: Vec<LineComment>,
}

pub open spec fn tool_error_text(e: ToolSourceError) -> Seq<char> {
    match e {
        ToolSourceError::NotFound(name) => "tool not found: "@ + name@,
        ToolSourceError::InvalidInput(msg) => "invalid input: "@ + msg@,
    }
}

impl ToolSourceError {
    /// The failure as text for the conversation.
    pub fn describe(&self) -> (r: String)
        ensures
            r@ == tool_error_text(*self),
    {
        match self {
            ToolSourceError::NotFound(name) => {
                let mut s = String::new();
                s.append("tool not found: ");
                s.append(name.as_str());
                s
            },
            ToolSourceError::InvalidInput(msg) => {
                let mut s = String::new();
                s.append("invalid input: ");
                s.append(msg.as_str());
                s
            },
        }
    }
}

/// The fixed two-entry catalog: `get_pr_context`, then `submit_review`,
/// each with its description and argument schema.
pub open spec fn is_catalog(specs: Seq<ToolSpec>) -> bool {
    &&& specs.len() == 2
    &&& specs[0].name@ == TOOL_GET_PR_CONTEXT@
    &&& specs[0].description matches Some(d) && d@ == GET_PR_CONTEXT_DESCRIPTION@
    &&& specs[0].input_schema@ == GET_PR_CONTEXT_SCHEMA@
    &&& specs[1].name@ == TOOL_SUBMIT_REVIEW@
    &&& specs[1].description matches Some(d) && d@ == SUBMIT_REVIEW_DESCRIPTION@
    &&& specs[1].input_schema@ == SUBMIT_REVIEW_SCHEMA@
}

/// Builds the fixed two-entry catalog.
pub fn tool_catalog() -> (r: Vec<ToolSpec>)
    ensures
        is_catalog(r@),
{
    let mut specs: Vec<ToolSpec> = Vec::new();
    specs.push(
        ToolSpec {
            name: TOOL_GET_PR_CONTEXT.to_owned(),
            description: Some(GET_PR_CONTEXT_DESCRIPTION.to_owned()),
            input_schema: GET_PR_CONTEXT_SCHEMA.to_owned(),
        },
    );
    specs.push(
        ToolSpec {
            name: TOOL_SUBMIT_REVIEW.to_owned(),
            description: Some(SUBMIT_REVIEW_DESCRIPTION.to_owned()),
            input_schema: SUBMIT_REVIEW_SCHEMA.to_owned(),
        },
    );
    specs
}

/// A comment is kept when it names a file, a line of at least 1 and has a body.
pub open spec fn is_valid_comment(c: LineCommentModel) -> bool {
    c.line >= 1 && c.path.len() > 0 && c.body.len() > 0
}

/// The valid comments of `cs`, in their order.
pub open spec fn valid_comments(cs: Seq<LineCommentModel>) -> Seq<LineCommentModel>
    decreases cs.len(),
{
    if cs.len() == 0 {
        cs
    } else if is_valid_comment(cs.last()) {
        valid_comments(cs.drop_last()).push(cs.last())
    } else {
        valid_comments(cs.drop_last())
    }
}

/// Every comment that filtering keeps is valid.
pub proof fn lemma_valid_comments_are_valid(cs: Seq<LineCommentModel>)
    ensures
        forall|i: int|
            0 <= i < valid_comments(cs).len() ==> #[trigger] is_valid_comment(
                valid_comments(cs)[i],
            ),
    decreases cs.len(),
{
    if cs.len() > 0 {
        let prev = valid_comments(cs.drop_last());
        lemma_valid_comments_are_valid(cs.drop_last());
        assert forall|i: int| 0 <= i < valid_comments(cs).len() implies #[trigger] is_valid_comment(
            valid_comments(cs)[i],
        ) by {
            if i < prev.len() {
                assert(valid_comments(cs)[i] == prev[i]);
            }
        }
    }
}

/// A list of valid comments passes filtering unchanged.
pub proof fn lemma_valid_comments_keep_valid(cs: Seq<LineCommentModel>)
    requires
        forall|i: int| 0 <= i < cs.len() ==> #[trigger] is_valid_comment(cs[i]),
    ensures
        valid_comments(cs) == cs,
    decreases cs.len(),
{
    if cs.len() > 0 {
        lemma_valid_comments_keep_valid(cs.drop_last());
        assert(valid_comments(cs.drop_last()).push(cs.last()) =~= cs);
    }
}

/// Filtering line comments twice gives what filtering once gives: the
/// invalid ones are gone after the first pass and the rest keep their order.
pub proof fn lemma_filter_idempotent(cs: Seq<LineCommentModel>)
    ensures
        valid_comments(valid_comments(cs)) == valid_comments(cs),
{
    lemma_valid_comments_are_valid(cs);
    lemma_valid_comments_keep_valid(valid_comments(cs));
}

/// A copy of a comment.
fn copy_comment(c: &LineComment) -> (r: LineComment)
    ensures
        r@ == c@,
{
    LineComment { path: c.path.clone(), line: c.line, body: c.body.clone() }
}

/// Keeps the comments with a non-empty path, a line of at least 1 and a
/// non-empty body, in their order; the others are dropped without error.
pub fn filter_line_comments(comments: &Vec<LineComment>) -> (r: Vec<LineComment>)
    ensures
        comments_view(r@) == valid_comments(comments_view(comments@)),
{
    let ghost all = comments_view(comments@);
    let mut kept: Vec<LineComment> = Vec::new();
    let mut i: usize = 0;
    while i < comments.len()
        invariant
            i <= comments@.len(),
            all == comments_view(comments@),
            comments_view(kept@) == valid_comments(all.subrange(0, i as int)),
        decreases comments@.len() - i,
    {
        let c = &comments[i];
        assert(all.subrange(0, i + 1).drop_last() =~= all.subrange(0, i as int));
        assert(all.subrange(0, i + 1).last() == c@);
        if c.line >= 1 && c.path.unicode_len() > 0 && c.body.unicode_len() > 0 {
            let ghost before = kept@;
            kept.push(copy_comment(c));
            assert(comments_view(kept@) =~= comments_view(before).push(c@));
        }
        i = i + 1;
    }
    assert(all.subrange(0, comments@.len() as int) =~= all);
    kept
}

/// The result made of `summary` and the valid ones of `comments`.
pub open spec fn submitted_result(summary: Seq<char>, comments: Seq<LineComment>) -> ReviewModel {
    ReviewModel { summary, line_comments: valid_comments(comments_view(comments)) }
}

/// Builds the result of a submission: its summary and its valid comments.
pub fn build_review_result(summary: String, line_comments: &Vec<LineComment>) -> (r: ReviewResult)
    ensures
        r@ == submitted_result(summary@, line_comments@),
{
    let comments = filter_line_comments(line_comments);
    ReviewResult { summary, line_comments: comments }
}

/// The paths of `input`'s files joined with `, `.
pub open spec fn file_paths(input: ReviewInput) -> Seq<char> {
    joined(input.files@.map_values(|f: crate::review_input::FileContent| f.path@), ", "@)
}

/// What `get_pr_context` answers for `part`; an unknown part is named back.
pub open spec fn context_part(input: ReviewInput, part: Seq<char>) -> Seq<char> {
    if part == "title"@ {
        input.title@
    } else if part == "description"@ {
        input.description@
    } else if part == "diff"@ {
        input.diff@
    } else if part == "files"@ {
        file_paths(input)
    } else {
        "Unknown part: "@ + part
    }
}

/// Reads one part of `input`: `title`, `description`, `diff` or `files`.
pub fn get_part(input: &ReviewInput, part: &str) -> (r: String)
    ensures
        r@ == context_part(*input, part@),
{
    if same_text(part, "title") {
        input.title.clone()
    } else if same_text(part, "description") {
        input.description.clone()
    } else if same_text(part, "diff") {
        input.diff.clone()
    } else if same_text(part, "files") {
        let ghost paths = input.files@.map_values(|f: crate::review_input::FileContent| f.path@);
        let mut list = String::new();
        let mut i: usize = 0;
        while i < input.files.len()
            invariant
                i <= input.files@.len(),
                paths == input.files@.map_values(
                    |f: crate::review_input::FileContent| f.path@,
                ),
                list@ == joined(paths.subrange(0, i as int), ", "@),
            decreases input.files@.len() - i,
        {
            if i > 0 {
                list.append(", ");
            }
            list.append(input.files[i].path.as_str());
            assert(paths.subrange(0, i + 1).drop_last() =~= paths.subrange(0, i as int));
            i = i + 1;
        }
        assert(paths.subrange(0, input.files@.len() as int) =~= paths);
        list
    } else {
        let mut s = String::new();
        s.append("Unknown part: ");
        s.append(part);
        s
    }
}

/// The part that a call asks for: its `part` argument, or empty text.
pub open spec fn requested_part(arguments: ToolArguments) -> Seq<char> {
    match arguments.part {
        Some(p) => p@,
        None => Seq::empty(),
    }
}

/// The slot after a result is offered: the first result stays.
pub open spec fn slot_after_offer(slot: Option<ReviewModel>, v: ReviewModel) -> Option<ReviewModel> {
    match slot {
        None => Some(v),
        Some(_) => slot,
    }
}

/// The slot after each of `offers` is offered in turn.
pub open spec fn slot_after_offers(slot: Option<ReviewModel>, offers: Seq<ReviewModel>) -> Option<
    ReviewModel,
>
    decreases offers.len(),
{
    if offers.len() == 0 {
        slot
    } else {
        slot_after_offers(slot_after_offer(slot, offers[0]), offers.drop_first())
    }
}

/// A filled slot keeps its result whatever is offered next.
pub proof fn lemma_filled_slot_unchanged(slot: Option<ReviewModel>, offers: Seq<ReviewModel>)
    requires
        slot is Some,
    ensures
        slot_after_offers(slot, offers) == slot,
    decreases offers.len(),
{
    if offers.len() > 0 {
        lemma_filled_slot_unchanged(slot_after_offer(slot, offers[0]), offers.drop_first());
    }
}

/// Single assignment: of any sequence of results offered to an empty slot,
/// exactly the first is kept, and the later ones leave it unchanged.
pub proof fn lemma_first_offer_kept(offers: Seq<ReviewModel>)
    requires
        offers.len() > 0,
    ensures
        slot_after_offers(None, offers) == Some(offers[0]),
{
    lemma_filled_slot_unchanged(Some(offers[0]), offers.drop_first());
}

/// A cell that takes the result of one review at most once.
#[derive(Debug)]
pub struct ResultSlot {
    value: Option<ReviewResult>,
}

impl View for ResultSlot {
    type V = Option<ReviewModel>;

    closed spec fn view(&self) -> Option<ReviewModel> {
        match self.value {
            Some(v) => Some(v@),
            None => None,
        }
    }
}

impl ResultSlot {
    /// An empty slot.
    pub fn new() -> (r: Self)
        ensures
            r@ is None,
    {
        ResultSlot { value: None }
    }

    /// Stores `v` when the slot is empty; a filled slot keeps its result.
    /// Returns whether `v` was stored.
    pub fn offer(&mut self, v: ReviewResult) -> (stored: bool)
        ensures
            stored == (old(self)@ is None),
            final(self)@ == slot_after_offer(old(self)@, v@),
    {
        if self.value.is_none() {
            self.value = Some(v);
            true
        } else {
            false
        }
    }

    /// Whether a result is stored.
    pub fn is_filled(&self) -> (r: bool)
        ensures
            r == (self@ is Some),
    {
        self.value.is_some()
    }

    /// The stored result, if any.
    pub fn get(&self) -> (r: Option<&ReviewResult>)
        ensures
            match r {
                Some(v) => self@ == Some(v@),
                None => self@ is None,
            },
    {
        match &self.value {
            Some(v) => Some(v),
            None => None,
        }
    }

    /// Takes the stored result out of the slot.
    pub fn into_result(self) -> (r: Option<ReviewResult>)
        ensures
            match r {
                Some(v) => self@ == Some(v@),
                None => self@ is None,
            },
    {
        self.value
    }
}

/// What the reasoning loop needs of a tool source: running one call, and
/// the slot that accepted submissions fill.
pub trait ReviewTools: Sized {
    /// What the slot holds.
    spec fn filled(&self) -> Option<ReviewModel>;

    /// The source's own invariant.
    spec fn ready(&self) -> bool;

    /// What one call of `name` with `arguments` does, from `self` to
    /// `after`, answering `r`.
    spec fn tool_step(
        &self,
        name: Seq<char>,
        arguments: ToolArguments,
        r: Result<ToolCallContent, ToolSourceError>,
        after: Self,
    ) -> bool;

    /// Runs the tool `name`. Only a submission with a summary can change the
    /// slot, and only when it is accepted; one without a summary fails.
    fn run_tool(&mut self, name: &str, arguments: ToolArguments) -> (r: Result<
        ToolCallContent,
        ToolSourceError,
    >)
        requires
            old(self).ready(),
        ensures
            final(self).ready(),
            old(self).tool_step(name@, arguments, r, *final(self)),
            !(name@ == TOOL_SUBMIT_REVIEW@ && arguments.summary is Some) ==> final(self).filled()
                == old(self).filled(),
            name@ == TOOL_SUBMIT_REVIEW@ && arguments.summary is None ==> r is Err,
            name@ == TOOL_SUBMIT_REVIEW@ && arguments.summary is Some ==> {
                ||| r is Ok && final(self).filled() == slot_after_offer(
                    old(self).filled(),
                    submitted_result(arguments.summary->0@, arguments.line_comments@),
                )
                ||| r is Err && final(self).filled() == old(self).filled()
            },
    ;

    /// Gives up the source and keeps its slot.
    fn release_slot(self) -> (r: ResultSlot)
        ensures
            r@ == self.filled(),
    ;
}

/// What one call of `name` with `arguments` on the in-memory tools does,
/// from `old` to `new`, answering `r`.
///
/// `get_pr_context` answers the requested part; `submit_review` needs a
/// summary, offers the result to the slot and acknowledges; any other name
/// is not found. Only an accepted submission touches the slot.
pub open spec fn memory_step(
    old: ReviewToolSource,
    name: Seq<char>,
    arguments: ToolArguments,
    r: Result<ToolCallContent, ToolSourceError>,
    new: ReviewToolSource,
) -> bool {
    &&& new.input() == old.input()
    &&& name == TOOL_GET_PR_CONTEXT@ ==> {
        &&& r matches Ok(c) && c.text@ == context_part(old.input(), requested_part(arguments))
        &&& new.slot()@ == old.slot()@
    }
    &&& name == TOOL_SUBMIT_REVIEW@ && arguments.summary is None ==> {
        &&& r matches Err(ToolSourceError::InvalidInput(m)) && m@
            == "submit_review: missing summary"@
        &&& new.slot()@ == old.slot()@
    }
    &&& name == TOOL_SUBMIT_REVIEW@ && arguments.summary is Some ==> {
        &&& r matches Ok(c) && c.text@ == "Review submitted."@
        &&& new.slot()@ == slot_after_offer(
            old.slot()@,
            submitted_result(arguments.summary->0@, arguments.line_comments@),
        )
    }
    &&& name != TOOL_GET_PR_CONTEXT@ && name != TOOL_SUBMIT_REVIEW@ ==> {
        &&& r matches Err(ToolSourceError::NotFound(n)) && n@ == name
        &&& new.slot()@ == old.slot()@
    }
}

/// Tools over a review input already in hand.
///
/// `get_pr_context` reads the input; `submit_review` builds the result and
/// offers it to the slot, where only the first one stays.
pub struct ReviewToolSource {
    input: ReviewInput,
    result_slot: ResultSlot,
}

impl ReviewToolSource {
    /// Creates a tool source over `input` that writes into `result_slot`.
    pub fn new(input: ReviewInput, result_slot: ResultSlot) -> (r: Self)
        ensures
            r.input() == input,
            r.slot()@ == result_slot@,
    {
        ReviewToolSource { input, result_slot }
    }

    pub closed spec fn input(&self) -> ReviewInput {
        self.input
    }

    pub closed spec fn slot(&self) -> ResultSlot {
        self.result_slot
    }

    /// The tools: `get_pr_context`, then `submit_review`.
    pub fn tool_specs() -> (r: Vec<ToolSpec>)
        ensures
            is_catalog(r@),
    {
        tool_catalog()
    }

    /// Lists the tools; this never fails.
    pub fn list_tools(&self) -> (r: Result<Vec<ToolSpec>, ToolSourceError>)
        ensures
            r matches Ok(specs) && is_catalog(specs@),
    {
        Ok(tool_catalog())
    }

    /// The slot that submissions write to.
    pub fn result_slot(&self) -> (r: &ResultSlot)
        ensures
            r@ == self.slot()@,
    {
        &self.result_slot
    }

    /// Gives up the tool source and keeps its slot.
    pub fn into_result_slot(self) -> (r: ResultSlot)
        ensures
            r@ == self.slot()@,
    {
        self.result_slot
    }

    /// Runs the tool `name` with `arguments`.
    ///
    /// `get_pr_context` answers the requested part; `submit_review` needs a
    /// summary, offers the result to the slot and acknowledges; any other
    /// name is not found.
    pub fn call_tool(&mut self, name: &str, arguments: ToolArguments) -> (r: Result<
        ToolCallContent,
        ToolSourceError,
    >)
        ensures
            memory_step(*old(self), name@, arguments, r, *final(self)),
    {
        proof {
            lemma_tool_names_differ();
        }
        if same_text(name, TOOL_GET_PR_CONTEXT) {
            let text = match &arguments.part {
                Some(p) => get_part(&self.input, p.as_str()),
                None => {
                    proof {
                        reveal_strlit("");
                    }
                    assert(""@ =~= Seq::<char>::empty());
                    get_part(&self.input, "")
                },
            };
            Ok(ToolCallContent { text })
        } else if same_text(name, TOOL_SUBMIT_REVIEW) {
            match arguments.summary {
                None => Err(ToolSourceError::InvalidInput("submit_review: missing summary".to_owned())),
                Some(summary) => {
                    let result = build_review_result(summary, &arguments.line_comments);
                    self.result_slot.offer(result);
                    Ok(ToolCallContent { text: "Review submitted.".to_owned() })
                },
            }
        } else {
            Err(ToolSourceError::NotFound(name.to_owned()))
        }
    }
}

impl ReviewTools for ReviewToolSource {
    open spec fn filled(&self) -> Option<ReviewModel> {
        self.slot()@
    }

    open spec fn ready(&self) -> bool {
        true
    }

    open spec fn tool_step(
        &self,
        name: Seq<char>,
        arguments: ToolArguments,
        r: Result<ToolCallContent, ToolSourceError>,
        after: Self,
    ) -> bool {
        memory_step(*self, name, arguments, r, after)
    }

    fn run_tool(&mut self, name: &str, arguments: ToolArguments) -> (r: Result<
        ToolCallContent,
        ToolSourceError,
    >) {
        self.call_tool(name, arguments)
    }

    fn release_slot(self) -> (r: ResultSlot) {
        self.into_result_slot()
    }
}

} // verus!
