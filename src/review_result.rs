//! Result of agent review: summary and optional line-level comments.

use vstd::prelude::*;

verus! {

/// A single comment attached to a line (file path + line number).
#[derive(Debug, Clone)]
pub struct LineComment {
    pub path: String,
    pub line: u32,
    pub body: String,
}

/// Full review result: summary text and optional per-line comments.
#[derive(Debug, Clone)]
pub struct ReviewResult {
    pub summary: String,
    pub line_comments: Vec<LineComment>,
}

/// The abstract value of a [`LineComment`].
pub struct LineCommentModel {
    pub path: Seq<char>,
    pub line: u32,
    pub body: Seq<char>,
}

impl View for LineComment {
    type V = LineCommentModel;

    open spec fn view(&self) -> LineCommentModel {
        LineCommentModel { path: self.path@, line: self.line, body: self.body@ }
    }
}

/// The abstract values of a list of comments, in order.
pub open spec fn comments_view(cs: Seq<LineComment>) -> Seq<LineCommentModel> {
    cs.map_values(|c: LineComment| c@)
}

/// The abstract value of a [`ReviewResult`], the result of one review.
pub struct ReviewModel {
    pub summary: Seq<char>,
    pub line_comments: Seq<LineCommentModel>,
}

impl View for ReviewResult {
    type V = ReviewModel;

    open spec fn view(&self) -> ReviewModel {
        ReviewModel { summary: self.summary@, line_comments: comments_view(self.line_comments@) }
    }
}

impl Default for ReviewResult {
    fn default() -> (r: Self)
        ensures
            r.summary@.len() == 0,
            r.line_comments@.len() == 0,
    {
        ReviewResult::new()
    }
}

impl ReviewResult {
    /// Creates an empty result.
    pub fn new() -> (r: Self)
        ensures
            r.summary@.len() == 0,
            r.line_comments@.len() == 0,
    {
        ReviewResult { summary: String::new(), line_comments: Vec::new() }
    }

    /// Builder-style: set summary.
    pub fn with_summary(self, summary: &str) -> (r: Self)
        ensures
            r.summary@ == summary@,
            r.line_comments == self.line_comments,
    {
        ReviewResult { summary: summary.to_owned(), ..self }
    }

    /// Builder-style: set line comments.
    pub fn with_line_comments(self, line_comments: Vec<LineComment>) -> (r: Self)
        ensures
            r.summary == self.summary,
            r.line_comments == line_comments,
    {
        ReviewResult { line_comments, ..self }
    }
}

} // verus!
