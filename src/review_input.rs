//! Input for the review agent: title, description, diff and file list.

use vstd::prelude::*;

verus! {

/// One file's metadata and content (or diff) for review.
#[derive(Debug, Clone)]
pub struct FileContent {
    pub path: String,
    pub diff: Option<String>,
    pub content: Option<String>,
}

/// Aggregated input for a single PR/MR review.
#[derive(Debug, Clone)]
pub struct ReviewInput {
    pub title: String,
    pub description: String,
    pub diff: String,
    pub files: Vec<FileContent>,
}

impl Default for FileContent {
    fn default() -> (r: Self)
        ensures
            r.path@.len() == 0,
            r.diff is None,
            r.content is None,
    {
        FileContent { path: String::new(), diff: None, content: None }
    }
}

impl Default for ReviewInput {
    fn default() -> (r: Self)
        ensures
            r.title@.len() == 0,
            r.description@.len() == 0,
            r.diff@.len() == 0,
            r.files@.len() == 0,
    {
        ReviewInput::new()
    }
}

impl ReviewInput {
    /// Creates an empty `ReviewInput`.
    pub fn new() -> (r: Self)
        ensures
            r.title@.len() == 0,
            r.description@.len() == 0,
            r.diff@.len() == 0,
            r.files@.len() == 0,
    {
        ReviewInput {
            title: String::new(),
            description: String::new(),
            diff: String::new(),
            files: Vec::new(),
        }
    }

    /// Builder-style: set title.
    pub fn with_title(self, title: &str) -> (r: Self)
        ensures
            r.title@ == title@,
            r.description == self.description,
            r.diff == self.diff,
            r.files == self.files,
    {
        ReviewInput { title: title.to_owned(), ..self }
    }

    /// Builder-style: set description.
    pub fn with_description(self, description: &str) -> (r: Self)
        ensures
            r.title == self.title,
            r.description@ == description@,
            r.diff == self.diff,
            r.files == self.files,
    {
        ReviewInput { description: description.to_owned(), ..self }
    }

    /// Builder-style: set full diff.
    pub fn with_diff(self, diff: &str) -> (r: Self)
        ensures
            r.title == self.title,
            r.description == self.description,
            r.diff@ == diff@,
            r.files == self.files,
    {
        ReviewInput { diff: diff.to_owned(), ..self }
    }

    /// Builder-style: set file list.
    pub fn with_files(self, files: Vec<FileContent>) -> (r: Self)
        ensures
            r.title == self.title,
            r.description == self.description,
            r.diff == self.diff,
            r.files == files,
    {
        ReviewInput { files, ..self }
    }
}

} // verus!
