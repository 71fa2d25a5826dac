//! The commit as the rest of the tool hands it over: parsed conventional
//! fields and what the repository knows of the commit.

use vstd::prelude::*;

verus! {

/// The kind of change a conventional commit announces.
#[derive(Debug, Clone, PartialEq, Eq)]
pub enum CommitType {
    Feature,
    BugFix,
    Chore,
    Revert,
    Performances,
    Documentation,
    Style,
    Refactor,
    Test,
    Build,
    Ci,
    Custom(String),
}

/// What stands between a footer's token and its content in the commit text.
#[derive(Debug, Clone, Copy, PartialEq, Eq, Structural)]
pub enum Separator {
    Colon,
    Hash,
    ColonWithNewLine,
}

impl Default for Separator {
    fn default() -> (r: Self)
        ensures
            r == Separator::Colon,
    {
        Separator::Colon
    }
}

/// One trailer of a commit message.
#[derive(Debug, Clone, PartialEq, Eq)]
pub struct Footer {
    pub token: String,
    pub content: String,
    pub token_separator: Separator,
}

impl Default for Footer {
    fn default() -> (r: Self)
        ensures
            r.token@ == Seq::<char>::empty(),
            r.content@ == Seq::<char>::empty(),
            r.token_separator == Separator::Colon,
    {
        Footer { token: String::new(), content: String::new(), token_separator: Separator::Colon }
    }
}

/// A point in time without a time zone, counted in UTC from the Unix epoch.
#[derive(Debug, Clone, Copy, PartialEq, Eq, Structural)]
pub struct Timestamp {
    pub seconds: i64,
    pub nanoseconds: u32,
}

/// A commit message parsed along the conventional-commit grammar.
#[derive(Debug, Clone, PartialEq, Eq)]
pub struct ConventionalCommit {
    pub commit_type: CommitType,
    pub scope: Option<String>,
    pub summary: String,
    pub body: Option<String>,
    pub footers: Vec<Footer>,
    pub is_breaking_change: bool,
}

/// A commit found in a repository.
#[derive(Debug, Clone, PartialEq, Eq)]
pub struct Commit {
    pub oid: String,
    pub conventional: ConventionalCommit,
    pub author: String,
    pub date: Timestamp,
}

} // verus!
