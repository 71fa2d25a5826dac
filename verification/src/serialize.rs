//! From a changelog commit to its record.

use vstd::prelude::*;
use crate::record::{Field, FieldView, Record, RecordView, Value, ValueView};
use crate::release::{
    optional_str_view, optional_string_view, project_footers, ChangelogCommit, ChangelogCommitView,
};

verus! {

/// The names of a commit record's fields, in the order in which they are
/// written.
pub open spec fn field_names() -> Seq<Seq<char>> {
    seq![
        "id"@,
        "author"@,
        "signature"@,
        "type"@,
        "date"@,
        "scope"@,
        "summary"@,
        "body"@,
        "breaking_change"@,
        "footer"@,
    ]
}

/// The record of a changelog commit: ten fields, each a direct copy of
/// what the commit holds.
pub open spec fn record_of(commit: ChangelogCommitView) -> RecordView {
    RecordView {
        name: "Commit"@,
        fields: seq![
            FieldView { name: "id"@, value: ValueView::Text(commit.id) },
            FieldView { name: "author"@, value: ValueView::OptionalText(commit.author) },
            FieldView { name: "signature"@, value: ValueView::Text(commit.signature) },
            FieldView { name: "type"@, value: ValueView::Text(commit.title) },
            FieldView { name: "date"@, value: ValueView::Date(commit.date) },
            FieldView { name: "scope"@, value: ValueView::OptionalText(commit.scope) },
            FieldView { name: "summary"@, value: ValueView::Text(commit.summary) },
            FieldView { name: "body"@, value: ValueView::OptionalText(commit.body) },
            FieldView { name: "breaking_change"@, value: ValueView::Bool(commit.breaking_change) },
            FieldView { name: "footer"@, value: ValueView::Footers(commit.footers) },
        ],
    }
}

/// Borrows the text of an optional owned string.
fn borrow_text<'a>(text: &'a Option<String>) -> (borrowed: Option<&'a str>)
    ensures
        optional_str_view(borrowed) == optional_string_view(*text),
{
    match text {
        Some(s) => Some(s.as_str()),
        None => None,
    }
}

impl<'a> ChangelogCommit<'a> {
    /// Builds the record of this commit.
    ///
    /// The record always has its ten fields, in the order of
    /// [`field_names`]. Nothing is computed: each value is what the commit
    /// holds, the footers projected one for one and in order. An absent
    /// author, scope or body stays in the record as an absent value.
    pub fn serialize(&self) -> (record: Record<'_>)
        ensures
            record@ == record_of(self@),
    {
        let conventional = &self.commit.conventional;
        let footers = project_footers(&conventional.footers);
        let mut fields: Vec<Field<'_>> = Vec::with_capacity(10);
        fields.push(Field { name: "id", value: Value::Text(self.commit.oid.as_str()) });
        fields.push(Field { name: "author", value: Value::OptionalText(self.author_username) });
        fields.push(Field { name: "signature", value: Value::Text(self.commit.author.as_str()) });
        fields.push(Field { name: "type", value: Value::Text(self.changelog_title.as_str()) });
        fields.push(Field { name: "date", value: Value::Date(self.commit.date) });
        let scope = borrow_text(&conventional.scope);
        fields.push(Field { name: "scope", value: Value::OptionalText(scope) });
        fields.push(Field { name: "summary", value: Value::Text(conventional.summary.as_str()) });
        let body = borrow_text(&conventional.body);
        fields.push(Field { name: "body", value: Value::OptionalText(body) });
        let breaking_change = conventional.is_breaking_change;
        fields.push(Field { name: "breaking_change", value: Value::Bool(breaking_change) });
        fields.push(Field { name: "footer", value: Value::Footers(footers) });
        let record = Record { name: "Commit", fields };
        assert(record@.fields =~= record_of(self@).fields);
        record
    }
}

/// Every record of a commit has the same shape: it is named `Commit` and
/// has exactly the ten fields of [`field_names`], in that order and each
/// once. The field `breaking_change` is always there and holds the
/// commit's flag, whether the flag is set or not.
pub proof fn lemma_record_shape(commit: ChangelogCommit)
    ensures
        record_of(commit@).name == "Commit"@,
        record_of(commit@).fields.len() == 10,
        record_of(commit@).names() == field_names(),
        field_names().no_duplicates(),
        record_of(commit@).fields[8] == (FieldView {
            name: "breaking_change"@,
            value: ValueView::Bool(commit.commit.conventional.is_breaking_change),
        }),
{
    assert(record_of(commit@).names() =~= field_names());
    lemma_field_names_are_distinct();
}

/// No two fields of a commit record have the same name.
pub proof fn lemma_field_names_are_distinct()
    ensures
        field_names().len() == 10,
        field_names().no_duplicates(),
{
    reveal_strlit("id");
    reveal_strlit("author");
    reveal_strlit("signature");
    reveal_strlit("type");
    reveal_strlit("date");
    reveal_strlit("scope");
    reveal_strlit("summary");
    reveal_strlit("body");
    reveal_strlit("breaking_change");
    reveal_strlit("footer");
    let names = field_names();
    assert forall|i: int, j: int|
        0 <= i < names.len() && 0 <= j < names.len() && i != j implies names[i] != names[j] by {
        if names[i].len() == names[j].len() {
            assert(names[i][0] != names[j][0]);
        }
    }
}

/// An optional field that has no value is not dropped: the record keeps
/// the field, at its place, with an absent value. A value that is there is
/// kept as it is. In particular a commit whose author was not resolved
/// still has all ten fields, the second of them an absent `author`.
pub proof fn lemma_optional_fields_are_kept(commit: ChangelogCommit)
    ensures
        record_of(commit@).fields.len() == 10,
        record_of(commit@).fields[1] == (FieldView {
            name: "author"@,
            value: ValueView::OptionalText(optional_str_view(commit.author_username)),
        }),
        record_of(commit@).fields[5] == (FieldView {
            name: "scope"@,
            value: ValueView::OptionalText(optional_string_view(commit.commit.conventional.scope)),
        }),
        record_of(commit@).fields[7] == (FieldView {
            name: "body"@,
            value: ValueView::OptionalText(optional_string_view(commit.commit.conventional.body)),
        }),
        commit.author_username is None ==> record_of(commit@).fields[1] == (FieldView {
            name: "author"@,
            value: ValueView::OptionalText(None),
        }),
{
}

/// Building the record is a function of what the commit holds: two
/// commits with the same value, or one commit asked twice, give the same
/// record.
pub proof fn lemma_serialize_is_deterministic(first: ChangelogCommit, second: ChangelogCommit)
    requires
        first@ == second@,
    ensures
        record_of(first@) == record_of(second@),
{
}

/// Nothing is lost on the way: two commits with the same record hold the
/// same ten values.
pub proof fn lemma_record_is_lossless(first: ChangelogCommit, second: ChangelogCommit)
    requires
        record_of(first@) == record_of(second@),
    ensures
        first@ == second@,
{
}

} // verus!
