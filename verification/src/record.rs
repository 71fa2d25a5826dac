//! The record: named fields in a fixed order, each holding a value that a
//! self-describing format can encode.

use vstd::prelude::*;
use crate::commit::Timestamp;
use crate::release::{footer_views, ChangelogFooter, FooterView};

verus! {

/// A value of a record's field.
///
/// An optional text that is absent stays in the record as
/// `OptionalText(None)`: whether it is written as a null, as an empty
/// marker or by leaving the key out is the format's choice, not the
/// record's.
#[derive(Debug, Clone, PartialEq, Eq)]
pub enum Value<'a> {
    Text(&'a str),
    OptionalText(Option<&'a str>),
    Bool(bool),
    Date(Timestamp),
    Footers(Vec<ChangelogFooter<'a>>),
}

/// The mathematical value of a field's value.
pub enum ValueView {
    Text(Seq<char>),
    OptionalText(Option<Seq<char>>),
    Bool(bool),
    Date(Timestamp),
    Footers(Seq<FooterView>),
}

impl<'a> View for Value<'a> {
    type V = ValueView;

    open spec fn view(&self) -> ValueView {
        match *self {
            Value::Text(s) => ValueView::Text(s@),
            Value::OptionalText(Some(s)) => ValueView::OptionalText(Some(s@)),
            Value::OptionalText(None) => ValueView::OptionalText(None),
            Value::Bool(b) => ValueView::Bool(b),
            Value::Date(t) => ValueView::Date(t),
            Value::Footers(footers) => ValueView::Footers(footer_views(footers@)),
        }
    }
}

/// One field of a record: its name and its value.
#[derive(Debug, Clone, PartialEq, Eq)]
pub struct Field<'a> {
    pub name: &'static str,
    pub value: Value<'a>,
}

/// The mathematical value of a field.
pub struct FieldView {
    pub name: Seq<char>,
    pub value: ValueView,
}

impl<'a> View for Field<'a> {
    type V = FieldView;

    open spec fn view(&self) -> FieldView {
        FieldView { name: self.name@, value: self.value@ }
    }
}

/// A named record: its fields in the order in which they are to be
/// written.
#[derive(Debug, Clone, PartialEq, Eq)]
pub struct Record<'a> {
    pub name: &'static str,
    pub fields: Vec<Field<'a>>,
}

/// The mathematical value of a record.
pub struct RecordView {
    pub name: Seq<char>,
    pub fields: Seq<FieldView>,
}

impl RecordView {
    /// The names of the fields, in order.
    pub open spec fn names(self) -> Seq<Seq<char>> {
        self.fields.map_values(|f: FieldView| f.name)
    }
}

impl<'a> View for Record<'a> {
    type V = RecordView;

    open spec fn view(&self) -> RecordView {
        RecordView { name: self.name@, fields: self.fields@.map_values(|f: Field| f@) }
    }
}

} // verus!
