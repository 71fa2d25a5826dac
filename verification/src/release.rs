//! What a changelog shows of a commit: the commit itself, seen through a
//! borrowed view, and its footers in their outward shape.

use vstd::prelude::*;
use vstd::std_specs::convert::FromSpecImpl;
use crate::commit::{Commit, Footer, Timestamp};

verus! {

/// A footer as a changelog shows it: the token and the content of the
/// footer it was taken from, borrowed and unchanged.
#[derive(Debug, Clone, Copy, PartialEq, Eq)]
pub struct ChangelogFooter<'a> {
    pub token: &'a str,
    pub content: &'a str,
}

/// The mathematical value of a footer in a changelog: its token and its
/// content, as sequences of characters.
pub struct FooterView {
    pub token: Seq<char>,
    pub content: Seq<char>,
}

impl<'a> View for ChangelogFooter<'a> {
    type V = FooterView;

    open spec fn view(&self) -> FooterView {
        FooterView { token: self.token@, content: self.content@ }
    }
}

/// What a footer of a commit shows in a changelog: its token and its
/// content, nothing added and nothing left out.
pub open spec fn project(footer: Footer) -> FooterView {
    FooterView { token: footer.token@, content: footer.content@ }
}

/// The projections of a sequence of footers, one for one and in order.
pub open spec fn project_all(footers: Seq<Footer>) -> Seq<FooterView> {
    footers.map_values(|f: Footer| project(f))
}

/// The values of a sequence of changelog footers.
pub open spec fn footer_views(footers: Seq<ChangelogFooter>) -> Seq<FooterView> {
    footers.map_values(|f: ChangelogFooter| f@)
}

impl<'a> FromSpecImpl<&'a Footer> for ChangelogFooter<'a> {
    /// A borrowed string is known to contracts by its characters only, so
    /// no spec function can name the projection itself; `from` states its
    /// value instead.
    open spec fn obeys_from_spec() -> bool {
        false
    }

    open spec fn from_spec(footer: &'a Footer) -> Self {
        arbitrary()
    }
}

impl<'a> From<&'a Footer> for ChangelogFooter<'a> {
    /// Projects a footer. Every footer has exactly one projection: it
    /// carries the footer's token and content as they are.
    fn from(footer: &'a Footer) -> (projected: Self)
        ensures
            projected@ == project(*footer),
    {
        ChangelogFooter { token: footer.token.as_str(), content: footer.content.as_str() }
    }
}

/// Projects the footers of a commit, keeping the order in which they were
/// written.
pub fn project_footers<'a>(footers: &'a Vec<Footer>) -> (projected: Vec<ChangelogFooter<'a>>)
    ensures
        footer_views(projected@) == project_all(footers@),
{
    let mut projected: Vec<ChangelogFooter<'a>> = Vec::with_capacity(footers.len());
    let mut i: usize = 0;
    while i < footers.len()
        invariant
            i <= footers.len(),
            projected.len() == i,
            forall|k: int| 0 <= k < i ==> (#[trigger] projected[k])@ == project(footers[k]),
        decreases footers.len() - i,
    {
        projected.push(ChangelogFooter::from(&footers[i]));
        i += 1;
    }
    assert(footer_views(projected@) =~= project_all(footers@));
    projected
}

/// Projection loses nothing and adds nothing: the projection of a footer
/// has that footer's token and content, so two footers have the same
/// projection exactly when they agree on both.
pub proof fn lemma_projection_is_lossless(first: Footer, second: Footer)
    ensures
        project(first).token == first.token@,
        project(first).content == first.content@,
        project(first) == project(second) <==> {
            &&& first.token@ == second.token@
            &&& first.content@ == second.content@
        },
{
}

/// Projection keeps the order of the footers: there are as many
/// projections as footers, and each stands where its footer stood.
pub proof fn lemma_projection_keeps_order(footers: Seq<Footer>)
    ensures
        project_all(footers).len() == footers.len(),
        forall|i: int| 0 <= i < footers.len() ==> project_all(footers)[i] == project(footers[i]),
{
}

/// A commit as a changelog presents it: the commit, borrowed from the
/// collection that owns it, the label of its category and the resolved
/// name of its author, where one was found.
#[derive(Debug, Clone, PartialEq, Eq)]
pub struct ChangelogCommit<'a> {
    pub commit: &'a Commit,
    pub changelog_title: String,
    pub author_username: Option<&'a str>,
}

/// The characters of an optional borrowed string.
pub open spec fn optional_str_view(text: Option<&str>) -> Option<Seq<char>> {
    match text {
        Some(s) => Some(s@),
        None => None,
    }
}

/// The characters of an optional owned string.
pub open spec fn optional_string_view(text: Option<String>) -> Option<Seq<char>> {
    match text {
        Some(s) => Some(s@),
        None => None,
    }
}

/// The mathematical value of a changelog commit: the ten things that a
/// changelog shows of it.
pub struct ChangelogCommitView {
    pub id: Seq<char>,
    pub author: Option<Seq<char>>,
    pub signature: Seq<char>,
    pub title: Seq<char>,
    pub date: Timestamp,
    pub scope: Option<Seq<char>>,
    pub summary: Seq<char>,
    pub body: Option<Seq<char>>,
    pub breaking_change: bool,
    pub footers: Seq<FooterView>,
}

impl<'a> View for ChangelogCommit<'a> {
    type V = ChangelogCommitView;

    open spec fn view(&self) -> ChangelogCommitView {
        ChangelogCommitView {
            id: self.commit.oid@,
            author: optional_str_view(self.author_username),
            signature: self.commit.author@,
            title: self.changelog_title@,
            date: self.commit.date,
            scope: optional_string_view(self.commit.conventional.scope),
            summary: self.commit.conventional.summary@,
            body: optional_string_view(self.commit.conventional.body),
            breaking_change: self.commit.conventional.is_breaking_change,
            footers: project_all(self.commit.conventional.footers@),
        }
    }
}

} // verus!
