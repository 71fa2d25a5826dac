//! A released version, as far as a changelog is concerned with it.

use vstd::prelude::*;
use crate::record::{Value, ValueView};

verus! {

/// A tag: the canonical text of the version it names and, where known,
/// the object it points to.
///
/// How the text is put together from a prefix, a package and a version
/// number is decided where tags are read; here the text is taken as it
/// comes.
#[derive(Debug, Clone, PartialEq, Eq)]
pub struct Tag {
    pub version: String,
    pub oid: Option<String>,
}

impl Tag {
    /// A tag for the version with this canonical text.
    pub fn new(version: String, oid: Option<String>) -> (tag: Tag)
        ensures
            tag.version == version,
            tag.oid == oid,
    {
        Tag { version, oid }
    }

    /// The value that stands for this tag in a record: a bare text, equal
    /// to the tag's canonical text, whatever else the tag holds.
    pub fn serialize(&self) -> (value: Value<'_>)
        ensures
            value@ == ValueView::Text(self.version@),
    {
        Value::Text(self.version.as_str())
    }
}

} // verus!
