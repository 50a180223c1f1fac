//! System prompt and the first user message of a review conversation.

use vstd::prelude::*;

use crate::pr_url::{Platform, PrUrl, PrUrlModel};
use crate::review_input::{FileContent, ReviewInput};
use crate::text::{decimal, decimal_text, joined};

verus! {

/// System prompt for the code review agent: what it reads, which tools it
/// has, and that it must call `submit_review` exactly once.
pub const REVIEW_SYSTEM_PROMPT: &'static str = "You are a code review agent. Your input is the current PR's title, description, diff, and file list.

RULES:
1. Use get_pr_context(part: \"title\" | \"description\" | \"diff\" | \"files\") to load PR content (call at least once).
2. When your review is complete, you MUST call submit_review once with:
   - summary: string (overall review summary, required)
   - line_comments: optional array of { path, line, body } for per-line comments (line >= 1).
3. If you do not call submit_review, the review will fail.
4. Be concise and focused; for line comments, cite file path and line number clearly.";

pub open spec fn platform_name(p: Platform) -> Seq<char> {
    match p {
        Platform::GitHub => "GitHub"@,
        Platform::GitLab => "GitLab"@,
    }
}

/// The user message that opens a review of request `p`.
pub open spec fn pr_message(p: PrUrlModel) -> Seq<char> {
    "Review the "@ + platform_name(p.platform) + " PR: "@ + p.owner + " / "@ + p.repo + " #"@ + p.id
        + ".\nUse get_pr_context(part) to load title, description, diff, or files. When done, call submit_review."@
}

/// Builds the initial user message from `PrUrl` when the agent fetches the content itself.
pub fn pr_url_to_user_message(pr: &PrUrl) -> (r: String)
    ensures
        r@ == pr_message(pr@),
{
    let platform = match pr.platform {
        Platform::GitHub => "GitHub",
        Platform::GitLab => "GitLab",
    };
    let mut s = String::new();
    s.append("Review the ");
    s.append(platform);
    s.append(" PR: ");
    s.append(pr.owner.as_str());
    s.append(" / ");
    s.append(pr.repo.as_str());
    s.append(" #");
    s.append(pr.id.as_str());
    s.append(
        ".\nUse get_pr_context(part) to load title, description, diff, or files. When done, call submit_review.",
    );
    s
}

/// What a file's entry in the list says of what it carries.
pub open spec fn file_hint(f: FileContent) -> Seq<char> {
    if f.diff is Some && f.content is Some {
        " (diff+content)"@
    } else if f.diff is Some {
        " (diff)"@
    } else if f.content is Some {
        " (content)"@
    } else {
        Seq::empty()
    }
}

/// A file's entry in the list: its path and hint.
pub open spec fn file_entry(f: FileContent) -> Seq<char> {
    f.path@ + file_hint(f)
}

/// The entries of `files`, joined with `, `.
pub open spec fn file_listing(files: Seq<FileContent>) -> Seq<char> {
    joined(files.map_values(|f: FileContent| file_entry(f)), ", "@)
}

/// The user message that carries a whole review input.
pub open spec fn input_message(input: ReviewInput) -> Seq<char> {
    let list = file_listing(input.files@);
    "Title: "@ + input.title@ + "\n\nDescription: "@ + input.description@ + "\n\nDiff:\n"@
        + input.diff@ + "\n\nFiles ("@ + decimal(input.files@.len()) + "): "@ + if list.len() == 0 {
        "(none)"@
    } else {
        list
    }
}

/// Builds the user message text from `ReviewInput`: title, description,
/// diff, then the file list with a hint of what each file carries.
pub fn review_input_to_user_message(input: &ReviewInput) -> (r: String)
    ensures
        r@ == input_message(*input),
{
    let ghost entries = input.files@.map_values(|f: FileContent| file_entry(f));
    let mut list = String::new();
    let mut i: usize = 0;
    while i < input.files.len()
        invariant
            i <= input.files@.len(),
            entries == input.files@.map_values(|f: FileContent| file_entry(f)),
            list@ == joined(entries.subrange(0, i as int), ", "@),
        decreases input.files@.len() - i,
    {
        let f = &input.files[i];
        let hint = match (&f.diff, &f.content) {
            (Some(_), Some(_)) => " (diff+content)",
            (Some(_), None) => " (diff)",
            (None, Some(_)) => " (content)",
            (None, None) => "",
        };
        proof {
            reveal_strlit("");
        }
        assert(hint@ == file_hint(*f));
        if i > 0 {
            list.append(", ");
        }
        list.append(f.path.as_str());
        list.append(hint);
        assert(entries.subrange(0, i + 1).drop_last() =~= entries.subrange(0, i as int));
        i = i + 1;
    }
    assert(entries.subrange(0, input.files@.len() as int) =~= entries);
    let mut s = String::new();
    s.append("Title: ");
    s.append(input.title.as_str());
    s.append("\n\nDescription: ");
    s.append(input.description.as_str());
    s.append("\n\nDiff:\n");
    s.append(input.diff.as_str());
    s.append("\n\nFiles (");
    let n = decimal_text(input.files.len());
    s.append(n.as_str());
    s.append("): ");
    if list.unicode_len() == 0 {
        s.append("(none)");
    } else {
        s.append(list.as_str());
    }
    s
}

} // verus!
